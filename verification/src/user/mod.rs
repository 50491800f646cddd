//! User accounts: login tokens and sessions.

pub mod database;
pub mod login_token;
pub mod session;

pub use database::User;
pub use session::Session;
