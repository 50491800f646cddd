//! Game sessions: the session's data, the rules of guessing and timing, and what a
//! player gets to see.

pub mod database;
pub mod logic;
pub mod response;
pub mod routes;

pub use database::Game;
pub use response::Response;
