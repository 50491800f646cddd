use beatdrop::user::login_token::Secret;
use beatdrop::user::session::{bearer_token, AuthHeader};
use beatdrop::user::{Session, User};

const HASH: &str = "8a372f722a922e29cf5cb22bdabc6d284364f376da355ca65be36dae2fa6f0335744cefa9089de55d331ae64e9b2f1037e73608b03b978758a20a012924ab235";

fn secret() -> Secret {
    let mut bytes = [0u8; 28];
    for (i, byte) in bytes.iter_mut().enumerate() {
        *byte = i as u8;
    }
    Secret(bytes)
}

fn hex(bytes: &[u8]) -> String {
    bytes.iter().map(|byte| format!("{byte:02x}")).collect()
}

fn user(secret_hash: Vec<u8>) -> User {
    User { id: 42, display_name: None, created_at: 0, secret_hash }
}

#[test]
fn secrets_are_hashed_with_sha512() {
    assert_eq!(hex(&secret().hash()), HASH);
}

#[test]
fn tokens_hold_the_id_and_the_secret() {
    assert_eq!(secret().into_token(42), "AAAAKgABAgMEBQYHCAkKCwwNDg8QERITFBUWFxgZGhs");
    assert_eq!(Secret([255; 28]).into_token(-2), "_____v____________________________________8");
}

#[test]
fn tokens_are_parsed_back() {
    for id in [0, 1, 42, -1, -2, i32::MAX, i32::MIN, 0x0102_0304] {
        let (parsed, found) = Secret::from_token(&secret().into_token(id)).unwrap();
        assert_eq!(parsed, id);
        assert_eq!(found.0, secret().0);
    }
}

#[test]
fn what_is_no_token_is_refused() {
    assert!(Secret::from_token("").is_none());
    assert!(Secret::from_token("not base64 !").is_none());
    // 31 and 33 bytes
    assert!(Secret::from_token("AAAAKgABAgMEBQYHCAkKCwwNDg8QERITFBUWFxgZGg").is_none());
    assert!(Secret::from_token("AAAAKgABAgMEBQYHCAkKCwwNDg8QERITFBUWFxgZGhsc").is_none());
    // padding is not accepted
    assert!(Secret::from_token("AAAAKgABAgMEBQYHCAkKCwwNDg8QERITFBUWFxgZGhs=").is_none());
}

#[test]
fn new_secrets_differ() {
    assert_ne!(Secret::new().0, Secret::new().0);
}

#[test]
fn a_secret_matches_its_own_hash_only() {
    let hash = secret().hash();
    assert!(secret().matches_hash(&hash));
    assert!(!Secret([0; 28]).matches_hash(&hash));
    assert!(!secret().matches_hash(&hash[..63]));
    assert!(!secret().matches_hash(&[]));
}

#[test]
fn a_login_needs_the_account_and_the_secret() {
    let hash = secret().hash().to_vec();
    assert_eq!(User::from_login_token(Some(user(hash.clone())), &secret()).map(|user| user.id), Some(42));
    assert!(User::from_login_token(Some(user(hash)), &Secret([1; 28])).is_none());
    assert!(User::from_login_token(None, &secret()).is_none());
}

#[test]
fn the_token_follows_the_bearer_prefix() {
    assert_eq!(bearer_token("Bearer abc.def"), Ok("abc.def"));
    assert_eq!(bearer_token("Bearer "), Ok(""));
    assert_eq!(bearer_token("Bearer ünï"), Ok("ünï"));
    assert_eq!(bearer_token("bearer abc"), Err("invalid auth header format"));
    assert_eq!(bearer_token("Bearer"), Err("invalid auth header format"));
    assert_eq!(bearer_token(""), Err("invalid auth header format"));
    assert_eq!(bearer_token(" Bearer abc"), Err("invalid auth header format"));
    assert_eq!(AuthHeader::from_header(Some("Bearer token")).map(|auth| auth.0), Some("token".to_string()));
    assert!(AuthHeader::from_header(Some("Basic token")).is_none());
    assert!(AuthHeader::from_header(None).is_none());
}

#[test]
fn sessions_expire() {
    let session = Session { account_id: 1, created_at: 1_000 };
    assert_eq!(Session::validate(Some(session), 500, 1_500), Ok(session));
    assert_eq!(Session::validate(Some(session), 500, 1_501), Err("session token expired"));
    assert_eq!(Session::validate(None, 500, 0), Err("invalid session token"));
    assert!(!Session { account_id: 1, created_at: i64::MAX }.is_expired(i64::MAX, i64::MAX));
    assert!(Session { account_id: 1, created_at: i64::MIN }.is_expired(0, 0));
}
