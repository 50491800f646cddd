//! Core rules of a daily music-guessing game: the session engine, the unlock
//! schedule, clip extraction, track selection and the catalog's retry policy.

pub mod api_error;
pub mod database;
pub mod deezer;
pub mod errors;
pub mod game;
pub mod ratelimit;
pub mod text;
pub mod track;
pub mod user;
