use minne_backend::claims::{decode, encode, get_token_for_user, issue, Claims, DecodeError};

const KEY: &str = "test-signature-psk";

#[test]
fn round_trip_inside_window_returns_claims() {
    let t: u64 = 1_700_000_000;
    let claims = Claims { exp: t + 301, iat: t, nbf: t + 1, sub: "a@example.com".to_string() };
    let token = encode(&claims, KEY).unwrap();
    let decoded = decode(&token, KEY, t + 150).unwrap();
    assert_eq!(decoded.exp, t + 301);
    assert_eq!(decoded.iat, t);
    assert_eq!(decoded.nbf, t + 1);
    assert_eq!(decoded.sub, "a@example.com");
}

#[test]
fn round_trip_boundaries_at_exactly_the_leeway() {
    let t: u64 = 1_700_000_000;
    let claims = Claims { exp: t + 301, iat: t, nbf: t + 1, sub: "a@example.com".to_string() };
    let token = encode(&claims, KEY).unwrap();
    // lower bound: valid at exactly notBefore - 5, not one second earlier
    assert!(decode(&token, KEY, t + 1 - 5).is_ok());
    assert_eq!(decode(&token, KEY, t + 1 - 6).unwrap_err(), DecodeError::NotYetValid);
    // upper bound: valid at exactly expiresAt + 5, not one second later
    assert!(decode(&token, KEY, t + 301 + 5).is_ok());
    assert_eq!(decode(&token, KEY, t + 301 + 6).unwrap_err(), DecodeError::Expired);
}

#[test]
fn token_signed_with_one_key_never_verifies_under_another() {
    let t: u64 = 1_700_000_000;
    let claims = Claims { exp: t + 301, iat: t, nbf: t + 1, sub: "a@example.com".to_string() };
    let token = encode(&claims, KEY).unwrap();
    let r = decode(&token, "another-signature-psk", t + 150);
    assert_eq!(r.unwrap_err(), DecodeError::InvalidSignature);
}

#[test]
fn issue_builds_the_documented_claim_set() {
    let t: u64 = 1_700_000_000;
    let token = issue("a@example.com", KEY, 300, t).unwrap();
    let decoded = decode(&token, KEY, t + 10).unwrap();
    assert_eq!(decoded.iat, t);
    assert_eq!(decoded.nbf, t + 1);
    assert_eq!(decoded.exp, t + 1 + 300);
    assert_eq!(decoded.sub, "a@example.com");
}

#[test]
fn issued_token_verifies_before_expiry_and_fails_after() {
    let t: u64 = 1_700_000_000;
    let token = issue("a@example.com", KEY, 300, t).unwrap();
    // well inside the lifetime
    let decoded = decode(&token, KEY, t + 299).unwrap();
    assert_eq!(decoded.sub, "a@example.com");
    // expiry is t + 301; the symmetric five-second leeway keeps the token
    // alive through t + 306 and no further
    assert!(decode(&token, KEY, t + 306).is_ok());
    assert_eq!(decode(&token, KEY, t + 307).unwrap_err(), DecodeError::Expired);
}

#[test]
fn malformed_tokens_are_rejected_as_malformed() {
    let t: u64 = 1_700_000_000;
    assert_eq!(decode("garbage", KEY, t).unwrap_err(), DecodeError::Malformed);
    assert_eq!(decode("", KEY, t).unwrap_err(), DecodeError::Malformed);
    assert_eq!(decode("a.b.c", KEY, t).unwrap_err(), DecodeError::Malformed);
}

#[test]
fn tampered_token_does_not_verify() {
    let t: u64 = 1_700_000_000;
    let claims = Claims { exp: t + 301, iat: t, nbf: t + 1, sub: "a@example.com".to_string() };
    let token = encode(&claims, KEY).unwrap();
    let mut tampered = token.clone();
    // flip the last signature character
    let last = tampered.pop().unwrap();
    tampered.push(if last == 'A' { 'B' } else { 'A' });
    assert!(decode(&tampered, KEY, t + 150).is_err());
}

#[test]
fn get_token_for_user_issues_a_currently_valid_token() {
    let subject = "a@example.com".to_string();
    let psk = KEY.to_string();
    let token = get_token_for_user(&subject, &psk, 300).unwrap();
    let now = std::time::SystemTime::now()
        .duration_since(std::time::UNIX_EPOCH)
        .unwrap()
        .as_secs();
    let decoded = decode(&token, KEY, now).unwrap();
    assert_eq!(decoded.sub, "a@example.com");
    assert_eq!(decoded.exp, decoded.iat + 301);
    assert_eq!(decoded.nbf, decoded.iat + 1);
}
