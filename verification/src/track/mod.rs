//! Tracks: title comparison, clip extraction and selection.

pub mod bulk_insert;
pub mod meta;
pub mod music;
pub mod pick;
pub mod routes;
pub mod similar;

pub use meta::Meta;
pub use similar::similar;
