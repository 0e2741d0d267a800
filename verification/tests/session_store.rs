use graduate_cli::hex::{decode_nibble, encode_hex, valid_hex};
use graduate_cli::session::{
    authenticate_envelope, capability_digest, decode_secret, metadata_integrity, random_hex,
    random_secret, reflog_digest, token_text, SessionClock, SessionError, SessionStatus,
    SessionStore, SessionToken, StoreEntry, SESSION_TTL_SECONDS,
};
use hmac::{KeyInit, Mac};
use sha2::{Digest, Sha256};

const ID: &str = "0123456789abcdef0123456789abcdef";

fn secret_hex() -> String {
    "ab".repeat(32)
}

fn token() -> String {
    format!("v1.{ID}.{}", secret_hex())
}

#[test]
fn tokens_parse_into_their_id_and_secret() {
    let parsed = SessionToken::parse(&token()).expect("valid token");
    assert_eq!(parsed.id, ID);
    assert_eq!(parsed.secret, [0xab; 32]);
}

#[test]
fn malformed_tokens_are_refused() {
    for value in [
        "",
        "v2.0123456789abcdef0123456789abcdef.".to_owned().as_str(),
        &format!("v1.{}.{}", ID.to_uppercase(), secret_hex()),
        &format!("v1.{ID}.{}", "ab".repeat(31)),
        &format!("v1.{ID}-{}", secret_hex()),
    ] {
        assert!(matches!(SessionToken::parse(value), Err(SessionError::InvalidToken)));
    }
}

#[test]
fn token_text_round_trips_through_parse() {
    let secret = [7u8; 32];
    let text = token_text(ID, &secret);
    let parsed = SessionToken::parse(&text).expect("round trip");
    assert_eq!(parsed.id, ID);
    assert_eq!(parsed.secret, secret);
}

#[test]
fn hex_helpers_use_lowercase_digits() {
    assert_eq!(encode_hex(&[0x00, 0x9f, 0xff]), "009fff");
    assert_eq!(decode_nibble(b'a'), Some(10));
    assert_eq!(decode_nibble(b'F'), None);
    assert!(valid_hex("00ff", 4));
    assert!(!valid_hex("00FF", 4));
    assert!(!valid_hex("00f", 4));
    assert_eq!(decode_secret(&"0f".repeat(32)), Ok([0x0f; 32]));
    let mut short = [0x0f; 32];
    short[31] = 0;
    assert_eq!(decode_secret(&"0f".repeat(31)), Ok(short));
    assert_eq!(decode_secret("0f0"), Err(SessionError::InvalidToken));
    assert_eq!(decode_secret("0F"), Err(SessionError::InvalidToken));
}

#[test]
fn capability_is_the_hex_sha256_of_the_secret() {
    let secret = [0u8; 32];
    let expected = encode_hex(&Sha256::digest(secret));
    assert_eq!(capability_digest(&secret), expected);
    assert_eq!(
        capability_digest(&secret),
        "66687aadf862bd776c8fc18b8e9f8e20089714856ee233b3902a591d0d5f2925"
    );
    assert_eq!(reflog_digest(b""), encode_hex(&Sha256::digest(b"")));
}

#[test]
fn integrity_binds_metadata_and_capability_under_the_key() {
    let key = [3u8; 32];
    let capability = capability_digest(&[1u8; 32]);
    let tag = metadata_integrity(&key, b"{}", &capability).expect("keyed");
    let mut mac = <hmac::Hmac<Sha256> as KeyInit>::new_from_slice(&key).expect("key");
    mac.update(b"{}\0");
    mac.update(capability.as_bytes());
    assert_eq!(tag, encode_hex(&mac.finalize().into_bytes()));
    assert_ne!(tag, metadata_integrity(&key, b"{ }", &capability).expect("keyed"));
}

#[test]
fn sealed_envelopes_authenticate_and_others_are_refused() {
    let key = [9u8; 32];
    let secret = [5u8; 32];
    let capability = capability_digest(&secret);
    let tag = metadata_integrity(&key, b"data", &capability).expect("keyed");
    assert_eq!(authenticate_envelope(4, 4, &capability, &tag, &secret, &key, b"data"), Ok(()));
    assert_eq!(
        authenticate_envelope(3, 4, &capability, &tag, &secret, &key, b"data"),
        Err(SessionError::SchemaMismatch { found: 3, expected: 4 })
    );
    assert_eq!(
        authenticate_envelope(4, 4, &capability, &tag, &[6u8; 32], &key, b"data"),
        Err(SessionError::InvalidToken)
    );
    assert_eq!(
        authenticate_envelope(4, 4, &capability, &tag, &secret, &key, b"changed"),
        Err(SessionError::Tampered)
    );
}

#[test]
fn random_ids_are_32_lowercase_hex_digits() {
    let id = random_hex().expect("randomness");
    assert!(valid_hex(&id, 32));
    assert_ne!(random_hex().expect("randomness"), id);
    assert_ne!(random_secret().expect("randomness"), random_secret().expect("randomness"));
}

#[test]
fn refreshing_pushes_the_expiry_a_full_day_out() {
    let mut clock = SessionClock::started(100);
    assert_eq!(clock.expires_at, 100 + SESSION_TTL_SECONDS);
    clock.refresh(1000);
    assert_eq!(clock.created_at, 100);
    assert_eq!(clock.expires_at, 1000 + SESSION_TTL_SECONDS);
    assert!(!clock.is_expired(1000 + SESSION_TTL_SECONDS - 1));
    assert!(clock.is_expired(1000 + SESSION_TTL_SECONDS));
    assert_eq!(SessionClock::started(u64::MAX).expires_at, u64::MAX);
}

fn entry(name: &str, expiry: Option<u64>, inactive: bool) -> StoreEntry {
    StoreEntry {
        name: Some(name.to_owned()),
        plain_directory: true,
        locked: true,
        recorded_expiry: expiry,
        inactive,
    }
}

#[test]
fn purging_removes_only_expired_unlocked_session_directories() {
    let store = SessionStore { root: "/tmp/sessions".to_owned(), integrity_key: [0; 32] };
    let other = "fedcba9876543210fedcba9876543210";
    let entries = vec![
        entry(ID, Some(10), false),
        entry(other, Some(10), false),
        entry("integrity.key", Some(10), false),
        entry(other, Some(100), false),
        entry(other, None, true),
        StoreEntry { locked: false, ..entry(other, Some(10), false) },
        StoreEntry { plain_directory: false, ..entry(other, Some(10), false) },
        StoreEntry { name: None, ..entry(other, Some(10), false) },
    ];
    assert_eq!(store.purge_expired(&entries, 50), vec![0, 1, 4]);
    assert_eq!(store.purge_expired_except(Some(ID), &entries, 50), vec![1, 4]);
}

#[test]
fn resuming_spares_the_named_session_or_refuses_a_bad_token() {
    let store = SessionStore { root: "/tmp/sessions".to_owned(), integrity_key: [0; 32] };
    let prepared = store.prepare_resume(&token());
    assert_eq!(prepared.keep.as_deref(), Some(ID));
    assert!(prepared.token.is_ok());
    let refused = store.prepare_resume("v1.nope");
    assert_eq!(refused.keep, None);
    assert!(matches!(refused.token, Err(SessionError::InvalidToken)));
}

#[test]
fn statuses_compare_by_variant() {
    assert_ne!(SessionStatus::Sealed, SessionStatus::Consumed);
}

#[test]
fn a_directory_is_inactive_after_a_full_session_period() {
    assert!(!graduate_cli::session::directory_inactive(None));
    assert!(!graduate_cli::session::directory_inactive(Some(SESSION_TTL_SECONDS - 1)));
    assert!(graduate_cli::session::directory_inactive(Some(SESSION_TTL_SECONDS)));
}

#[test]
fn decoding_the_hex_of_a_secret_gives_it_back() {
    let mut bytes = [0u8; 32];
    for (index, byte) in bytes.iter_mut().enumerate() {
        *byte = (index as u8).wrapping_mul(37).wrapping_add(200);
    }
    assert_eq!(decode_secret(&encode_hex(&bytes)), Ok(bytes));
}
