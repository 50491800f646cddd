//! The model of a user account.
use vstd::prelude::*;

verus! {

/// A user account.
#[derive(Debug)]
pub struct User {
    /// The user's unique account ID.
    pub id: i32,
    /// The user's display name.
    pub display_name: Option<String>,
    /// The time this account was created, in milliseconds since the epoch.
    pub created_at: i64,
    /// The hash of the user's login secret (the login secret forms a part of the login
    /// token).
    pub secret_hash: Vec<u8>,
}

} // verus!
