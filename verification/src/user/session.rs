//! Validate session tokens.
//!
//! Session tokens are signed. The token contains the account ID and the time the
//! token was created. Checking the signature is left to the caller; what is left of
//! the header, and whether a session has expired, is decided here.
use crate::text::{chars_of, has_word_at, starts_with_at};
use vstd::prelude::*;
use vstd::string::*;

verus! {

/// The data contained within a session token.
#[derive(Debug, PartialEq, Eq, Clone, Copy, Structural)]
pub struct Session {
    /// The ID of the account this session is for.
    pub account_id: i32,
    /// The time this session was created, in milliseconds since the epoch.
    ///
    /// This is used to check the session hasn't expired.
    pub created_at: i64,
}

/// What stands before the token in an `Authorization` header.
pub open spec fn bearer_prefix() -> Seq<char> {
    "Bearer "@
}

/// The token of an `Authorization` header, which is a token of the header's own text.
pub struct AuthHeader(pub String);

/// Whether a header has the form of a bearer token.
pub open spec fn is_bearer(header: Seq<char>) -> bool {
    starts_with_at(header, 0, bearer_prefix())
}

/// The token in a header of the form of a bearer token.
pub open spec fn token_of(header: Seq<char>) -> Seq<char> {
    header.subrange(bearer_prefix().len() as int, header.len() as int)
}

/// The token of an `Authorization` header: what follows `Bearer `. A header of another
/// form is refused.
pub fn bearer_token(header: &str) -> (token: Result<&str, &'static str>)
    ensures
        match token {
            Ok(found) => is_bearer(header@) && found@ == token_of(header@),
            Err(reason) => !is_bearer(header@) && reason@ == "invalid auth header format"@,
        },
{
    let prefix = chars_of("Bearer ");
    let text = chars_of(header);
    if !has_word_at(text.as_slice(), 0, prefix.as_slice()) {
        return Err("invalid auth header format");
    }
    Ok(header.substring_char(prefix.len(), text.len()))
}

impl AuthHeader {
    /// The token of a request's `Authorization` header, if it has one of the form of a
    /// bearer token.
    pub fn from_header(header: Option<&str>) -> (out: Option<AuthHeader>)
        ensures
            match out {
                Some(auth) => header matches Some(text) && is_bearer(text@) && auth.0@
                    == token_of(text@),
                None => header matches Some(text) ==> !is_bearer(text@),
            },
    {
        match header {
            Some(text) => match bearer_token(text) {
                Ok(token) => Some(AuthHeader(token.to_owned())),
                Err(_) => None,
            },
            None => None,
        }
    }
}

impl Session {
    /// Whether the session has outlived `lifetime` milliseconds at `now`.
    pub open spec fn expired(self, lifetime: i64, now: i64) -> bool {
        self.created_at + lifetime < now
    }

    /// Whether the session has outlived `lifetime` milliseconds at `now`.
    pub fn is_expired(&self, lifetime: i64, now: i64) -> (expired: bool)
        ensures
            expired == self.expired(lifetime, now),
    {
        (self.created_at as i128) + (lifetime as i128) < (now as i128)
    }

    /// Decide on a session whose token was checked: `claim` is what the token holds,
    /// or nothing where its signature did not hold. A session that has outlived
    /// `lifetime` is refused.
    pub fn validate(claim: Option<Session>, lifetime: i64, now: i64) -> (out: Result<
        Session,
        &'static str,
    >)
        ensures
            match claim {
                None => out matches Err(reason) && reason@ == "invalid session token"@,
                Some(session) => if session.expired(lifetime, now) {
                    out matches Err(reason) && reason@ == "session token expired"@
                } else {
                    out == Ok::<Session, &'static str>(session)
                },
            },
    {
        match claim {
            None => Err("invalid session token"),
            Some(session) => if session.is_expired(lifetime, now) {
                Err("session token expired")
            } else {
                Ok(session)
            },
        }
    }
}

} // verus!
