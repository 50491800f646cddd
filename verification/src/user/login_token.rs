//! Implements the login token generation and validation.
//!
//! Login tokens are made up of a user's ID and their login secret. The hash of the
//! login secret is stored locally, and compared to the hash of the secret in the
//! token on login attempts.
use crate::deezer::{signed_bits, unsigned_bits, Id};
use crate::user::database::User;
use vstd::prelude::*;

verus! {

/// How many bytes a login secret has.
pub const SECRET_LENGTH: usize = 28;

/// How many bytes a login token holds: four for the user's ID, and the secret.
pub const TOKEN_LENGTH: usize = 32;

/// The SHA-512 hash of some bytes, as `sha2` computes it.
pub uninterp spec fn sha512_of(data: Seq<u8>) -> Seq<u8>;

/// The URL-safe base64 text, without padding, of some bytes, as `base64` encodes
/// them.
pub uninterp spec fn base64_of(bytes: Seq<u8>) -> Seq<char>;

/// The bytes that `base64` decodes a URL-safe base64 text without padding to;
/// nothing where the text is no such encoding.
pub uninterp spec fn base64_decoding(text: Seq<char>) -> Option<Seq<u8>>;

/// Draws a fresh secret with `rand::random`. Nothing is known of the bytes drawn.
#[verifier::external_body]
fn random_secret() -> (bytes: [u8; 28]) {
    rand::random()
}

/// Hashes bytes with `sha2::Sha512::digest`. Trusted: the hash depends on the bytes
/// alone.
#[verifier::external_body]
fn sha512(data: &[u8]) -> (hash: [u8; 64])
    ensures
        hash@ == sha512_of(data@),
{
    <sha2::Sha512 as sha2::Digest>::digest(data).into()
}

/// Encodes bytes with `base64`'s `URL_SAFE_NO_PAD` engine. Trusted: the text depends
/// on the bytes alone, and decoding it with the same engine gives the bytes back.
#[verifier::external_body]
fn base64_encode(bytes: &[u8]) -> (text: String)
    ensures
        text@ == base64_of(bytes@),
        base64_decoding(text@) == Some(bytes@),
{
    base64::Engine::encode(&base64::engine::general_purpose::URL_SAFE_NO_PAD, bytes)
}

/// Decodes a text with `base64`'s `URL_SAFE_NO_PAD` engine. Trusted: the outcome
/// depends on the text alone.
#[verifier::external_body]
fn base64_decode(text: &str) -> (bytes: Option<Vec<u8>>)
    ensures
        match bytes {
            Some(decoded) => base64_decoding(text@) == Some(decoded@),
            None => base64_decoding(text@) is None,
        },
{
    base64::Engine::decode(&base64::engine::general_purpose::URL_SAFE_NO_PAD, text).ok()
}

/// Compares two byte strings with `constant_time_eq::constant_time_eq`. Trusted: the
/// answer is whether they are the same, length and all.
#[verifier::external_body]
fn constant_time_eq(a: &[u8], b: &[u8]) -> (same: bool)
    ensures
        same == (a@ == b@),
{
    constant_time_eq::constant_time_eq(a, b)
}

/// The secret bytes from a login token.
#[derive(Debug)]
pub struct Secret(pub [u8; 28]);

/// The four bytes of a number, most significant first.
pub open spec fn be_bytes(number: u32) -> Seq<u8> {
    seq![
        (number / 0x100_0000) as u8,
        (number / 0x1_0000 % 0x100) as u8,
        (number / 0x100 % 0x100) as u8,
        (number % 0x100) as u8,
    ]
}

/// The number whose four bytes, most significant first, are at the front of `bytes`.
pub open spec fn from_be_bytes(bytes: Seq<u8>) -> u32 {
    (bytes[0] * 0x100_0000 + bytes[1] * 0x1_0000 + bytes[2] * 0x100 + bytes[3]) as u32
}

/// The bytes that a login token holds: the user's ID, most significant byte first,
/// and the secret.
pub open spec fn token_bytes(id: i32, secret: Seq<u8>) -> Seq<u8> {
    be_bytes(unsigned_bits(id)) + secret
}

/// The user ID and the secret in a login token; nothing where the text is no token.
pub open spec fn token_contents(token: Seq<char>) -> Option<(i32, Seq<u8>)> {
    match base64_decoding(token) {
        Some(bytes) => if bytes.len() == TOKEN_LENGTH {
            Some(
                (
                    signed_bits(from_be_bytes(bytes)),
                    bytes.subrange(4, TOKEN_LENGTH as int),
                ),
            )
        } else {
            None
        },
        None => None,
    }
}

/// The number that bytes stand for is the one whose bytes they are.
pub proof fn lemma_be_bytes_roundtrip(number: u32)
    ensures
        from_be_bytes(be_bytes(number)) == number,
        be_bytes(number).len() == 4,
{
}

impl Secret {
    /// Generate a new login secret.
    pub fn new() -> (secret: Self) {
        Self(random_secret())
    }

    /// Get the hash of this secret.
    ///
    /// This is the only thing that should be stored.
    pub fn hash(&self) -> (hash: [u8; 64])
        ensures
            hash@ == sha512_of(self.0@),
    {
        sha512(vstd::array::array_as_slice(&self.0))
    }

    /// Create a token containing this secret and the given user ID. Parsing the token
    /// gives both back.
    pub fn into_token(self, id: i32) -> (token: String)
        ensures
            token@ == base64_of(token_bytes(id, self.0@)),
            token_contents(token@) == Some((id, self.0@)),
    {
        let number: u32 = Id::from_stored(id).0;
        let mut login_bytes: Vec<u8> = Vec::new();
        login_bytes.push((number / 0x100_0000) as u8);
        login_bytes.push((number / 0x1_0000 % 0x100) as u8);
        login_bytes.push((number / 0x100 % 0x100) as u8);
        login_bytes.push((number % 0x100) as u8);
        let mut i: usize = 0;
        while i < SECRET_LENGTH
            invariant
                i <= SECRET_LENGTH,
                login_bytes@ == be_bytes(number) + self.0@.subrange(0, i as int),
            decreases SECRET_LENGTH - i,
        {
            login_bytes.push(self.0[i]);
            i = i + 1;
        }
        proof {
            assert(self.0@.subrange(0, SECRET_LENGTH as int) =~= self.0@);
            assert(login_bytes@.subrange(4, TOKEN_LENGTH as int) =~= self.0@);
            lemma_be_bytes_roundtrip(number);
            assert(from_be_bytes(login_bytes@) == number);
        }
        base64_encode(login_bytes.as_slice())
    }

    /// Parse a login token into a user ID and secret.
    pub fn from_token(token: &str) -> (parsed: Option<(i32, Self)>)
        ensures
            match parsed {
                Some((id, secret)) => token_contents(token@) == Some((id, secret.0@)),
                None => token_contents(token@) is None,
            },
    {
        let login_bytes = match base64_decode(token) {
            Some(bytes) => bytes,
            None => {
                return None;
            },
        };
        if login_bytes.len() != TOKEN_LENGTH {
            return None;
        }
        let number: u32 = (login_bytes[0] as u32) * 0x100_0000 + (login_bytes[1] as u32) * 0x1_0000
            + (login_bytes[2] as u32) * 0x100 + (login_bytes[3] as u32);
        let mut secret: [u8; 28] = [0u8; 28];
        let mut i: usize = 0;
        while i < SECRET_LENGTH
            invariant
                i <= SECRET_LENGTH,
                login_bytes@.len() == TOKEN_LENGTH,
                forall|k: int| 0 <= k < i ==> secret@[k] == login_bytes@[4 + k],
            decreases SECRET_LENGTH - i,
        {
            secret[i] = login_bytes[4 + i];
            i = i + 1;
        }
        assert(secret@ =~= login_bytes@.subrange(4, TOKEN_LENGTH as int));
        Some((Id(number).to_stored(), Self(secret)))
    }

    /// Check if this secret matches a given hash.
    ///
    /// The hash must be the result of calling `hash` on another secret (but it could
    /// have been stored since, for example).
    pub fn matches_hash(&self, hash: &[u8]) -> (matches: bool)
        ensures
            matches == (sha512_of(self.0@) == hash@),
    {
        let own = self.hash();
        constant_time_eq(vstd::array::array_as_slice(&own), hash)
    }
}

impl User {
    /// Validate a login attempt against the account that the login token names, if
    /// there is one: the account comes back when the secret's hash is the stored one.
    pub fn from_login_token(user: Option<User>, attempt: &Secret) -> (out: Option<User>)
        ensures
            out == match user {
                Some(account) => if sha512_of(attempt.0@) == account.secret_hash@ {
                    Some(account)
                } else {
                    None
                },
                None => None,
            },
    {
        match user {
            Some(account) => if attempt.matches_hash(account.secret_hash.as_slice()) {
                Some(account)
            } else {
                None
            },
            None => None,
        }
    }
}

} // verus!
