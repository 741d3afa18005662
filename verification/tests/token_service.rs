use restaurant_pos::clock::Timestamp;
use restaurant_pos::token::{
    check_claims, create_token, create_token_at, decode_token, decode_token_at, AuthError,
    RawClaims, TokenError, TOKEN_LIFETIME_SECS,
};

fn at(secs: i64) -> Timestamp {
    Timestamp { secs, nanos: 0 }
}

#[test]
fn token_lifetime_is_ten_days() {
    assert_eq!(TOKEN_LIFETIME_SECS, 60 * 60 * 24 * 10);
}

#[test]
fn issued_token_has_three_parts() {
    let token = create_token_at("alice", at(1_700_000_000)).unwrap();
    assert_eq!(token.split('.').count(), 3);
    assert_ne!(token, "alice");
}

#[test]
fn issued_token_reads_back_with_expiry_ten_days_later() {
    let token = create_token_at("alice", at(1_700_000_000)).unwrap();
    let claims = decode_token_at(&token, 1_700_000_001).unwrap();
    assert_eq!(claims.sub, "alice");
    assert_eq!(claims.exp, 1_700_864_000);
}

#[test]
fn token_is_accepted_at_the_second_of_expiry() {
    let token = create_token_at("bob", at(1_000)).unwrap();
    let claims = decode_token_at(&token, 865_000).unwrap();
    assert_eq!(claims.exp, 865_000);
}

#[test]
fn token_is_rejected_after_expiry() {
    let token = create_token_at("bob", at(1_000)).unwrap();
    assert_eq!(decode_token_at(&token, 865_001).unwrap_err(), AuthError::Expired);
    assert_eq!(decode_token_at(&token, u64::MAX).unwrap_err(), AuthError::Expired);
}

#[test]
fn tampered_token_is_invalid() {
    let token = create_token_at("alice", at(1_700_000_000)).unwrap();
    let mut forged = token.clone();
    let last = forged.pop().unwrap();
    forged.push(if last == 'A' { 'B' } else { 'A' });
    assert_eq!(decode_token_at(&forged, 1_700_000_000).unwrap_err(), AuthError::Invalid);
}

#[test]
fn garbage_is_invalid() {
    assert_eq!(decode_token_at("", 0).unwrap_err(), AuthError::Invalid);
    assert_eq!(decode_token_at("a.b.c", 0).unwrap_err(), AuthError::Invalid);
    assert_eq!(decode_token_at("not a token", 0).unwrap_err(), AuthError::Invalid);
    assert_eq!(decode_token("a.b.c").unwrap_err(), AuthError::Invalid);
}

#[test]
fn token_signed_with_another_secret_is_invalid() {
    let mut payload = serde_json::Map::new();
    payload.insert("sub".to_owned(), serde_json::Value::from("alice"));
    payload.insert("exp".to_owned(), serde_json::Value::from(4_000_000_000u64));
    let foreign = jsonwebtoken::encode(
        &jsonwebtoken::Header::default(),
        &payload,
        &jsonwebtoken::EncodingKey::from_secret(b"another secret"),
    )
    .unwrap();
    assert_eq!(decode_token_at(&foreign, 0).unwrap_err(), AuthError::Invalid);
}

#[test]
fn token_without_subject_is_invalid() {
    let mut payload = serde_json::Map::new();
    payload.insert("exp".to_owned(), serde_json::Value::from(4_000_000_000u64));
    let token = jsonwebtoken::encode(
        &jsonwebtoken::Header::default(),
        &payload,
        &jsonwebtoken::EncodingKey::from_secret(b"secret"),
    )
    .unwrap();
    assert_eq!(decode_token_at(&token, 0).unwrap_err(), AuthError::Invalid);
}

#[test]
fn token_without_expiry_is_invalid() {
    let mut payload = serde_json::Map::new();
    payload.insert("sub".to_owned(), serde_json::Value::from("alice"));
    let token = jsonwebtoken::encode(
        &jsonwebtoken::Header::default(),
        &payload,
        &jsonwebtoken::EncodingKey::from_secret(b"secret"),
    )
    .unwrap();
    assert_eq!(decode_token_at(&token, 0).unwrap_err(), AuthError::Invalid);
}

#[test]
fn token_of_the_same_claims_from_elsewhere_is_accepted() {
    let mut payload = serde_json::Map::new();
    payload.insert("sub".to_owned(), serde_json::Value::from("carol"));
    payload.insert("exp".to_owned(), serde_json::Value::from(2_000u64));
    let token = jsonwebtoken::encode(
        &jsonwebtoken::Header::default(),
        &payload,
        &jsonwebtoken::EncodingKey::from_secret(b"secret"),
    )
    .unwrap();
    let claims = decode_token_at(&token, 2_000).unwrap();
    assert_eq!(claims.sub, "carol");
    assert_eq!(claims.exp, 2_000);
    assert_eq!(decode_token_at(&token, 2_001).unwrap_err(), AuthError::Expired);
}

#[test]
fn issuing_is_deterministic_for_one_instant() {
    let a = create_token_at("alice", at(5)).unwrap();
    let b = create_token_at("alice", at(5)).unwrap();
    let c = create_token_at("alice", at(6)).unwrap();
    let d = create_token_at("alicf", at(5)).unwrap();
    assert_eq!(a, b);
    assert_ne!(a, c);
    assert_ne!(a, d);
}

#[test]
fn clock_before_epoch_issues_nothing() {
    assert_eq!(create_token_at("alice", at(-1)).unwrap_err(), TokenError::ClockBeforeEpoch);
}

#[test]
fn token_from_the_clock_is_valid_now() {
    let token = create_token("alice").unwrap();
    let claims = decode_token(&token).unwrap();
    assert_eq!(claims.sub, "alice");
}

#[test]
fn unusual_names_survive_the_round_trip() {
    let name = "al\"ice \\ \u{1F600}\n";
    let token = create_token_at(name, at(10)).unwrap();
    assert_eq!(decode_token_at(&token, 10).unwrap().sub, name);
}

#[test]
fn claims_are_judged_against_the_second() {
    let raw = |sub: Option<&str>, exp: Option<u64>| {
        Some(RawClaims { sub: sub.map(|s| s.to_owned()), exp })
    };
    assert_eq!(check_claims(None, 0).unwrap_err(), AuthError::Invalid);
    assert_eq!(check_claims(raw(None, Some(5)), 0).unwrap_err(), AuthError::Invalid);
    assert_eq!(check_claims(raw(Some("a"), None), 0).unwrap_err(), AuthError::Invalid);
    assert_eq!(check_claims(raw(Some("a"), Some(5)), 6).unwrap_err(), AuthError::Expired);
    let ok = check_claims(raw(Some("a"), Some(5)), 5).unwrap();
    assert_eq!(ok.sub, "a");
    assert_eq!(ok.exp, 5);
}

#[test]
fn issuing_at_or_after_the_epoch_always_succeeds() {
    for secs in [0, 1, 1_700_000_000, i64::MAX] {
        assert!(create_token_at("alice", at(secs)).is_ok());
    }
    assert_eq!(
        decode_token_at(&create_token_at("a", at(i64::MAX)).unwrap(), 0).unwrap().exp,
        i64::MAX as u64 + 864_000
    );
}

#[test]
fn each_error_has_its_message() {
    assert_eq!(AuthError::Missing.message(), "Header Authorization is not found");
    assert_eq!(AuthError::Invalid.message(), "InvalidToken");
    assert_eq!(AuthError::Expired.message(), "ExpiredSignature");
}
