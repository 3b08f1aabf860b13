use minne_backend::claims::issue;
use minne_backend::config::BackendConfiguration;
use minne_backend::guard::{AuthenticatedUser, AuthorizationError};
use minne_backend::store::{CredentialStore, NewPersonalAccessToken, NewUser};

const KEY: &str = "guard-signature-psk";

fn test_config() -> BackendConfiguration {
    BackendConfiguration {
        token_signature_psk: KEY.to_string(),
        access_token_lifetime_in_seconds: 300,
        refresh_token_lifetime_in_seconds: 3600,
        user_registration_enabled: false,
    }
}

fn store_with_user(email: &str) -> (CredentialStore, i32) {
    let mut store = CredentialStore::new();
    let id = store.add_user(
        NewUser {
            first_name: "Ada".to_string(),
            last_name: "Lovelace".to_string(),
            email: email.to_string(),
            password_hash: "irrelevant".to_string(),
        },
        1_700_000_000,
    );
    (store, id)
}

#[test]
fn missing_header_is_classified_as_missing() {
    let store = CredentialStore::new();
    let r = AuthenticatedUser::from_request(None, &store, &test_config(), 1_700_000_000);
    assert_eq!(r.unwrap_err(), AuthorizationError::MissingAuthorizationHeader);
}

#[test]
fn header_without_second_part_is_malformed() {
    let store = CredentialStore::new();
    let r = AuthenticatedUser::from_request(Some("Bearer"), &store, &test_config(), 1_700_000_000);
    assert_eq!(r.unwrap_err(), AuthorizationError::MalformedAuthorizationHeader);
}

#[test]
fn unknown_scheme_is_malformed() {
    let store = CredentialStore::new();
    let r = AuthenticatedUser::from_request(Some("Basic xyz"), &store, &test_config(), 1_700_000_000);
    assert_eq!(r.unwrap_err(), AuthorizationError::MalformedAuthorizationHeader);
}

#[test]
fn header_with_three_parts_is_malformed() {
    let store = CredentialStore::new();
    let r = AuthenticatedUser::from_request(
        Some("Bearer a b"),
        &store,
        &test_config(),
        1_700_000_000,
    );
    assert_eq!(r.unwrap_err(), AuthorizationError::MalformedAuthorizationHeader);
}

#[test]
fn bearer_token_resolves_to_the_subjects_user() {
    let t: u64 = 1_700_000_000;
    let (store, id) = store_with_user("a@example.com");
    let token = issue("a@example.com", KEY, 300, t).unwrap();
    let header = format!("Bearer {}", token);
    let user = AuthenticatedUser::from_request(Some(&header), &store, &test_config(), t + 10)
        .unwrap();
    assert_eq!(user.id, id);
    assert_eq!(user.used_pat, "");
}

#[test]
fn scheme_classification_is_case_insensitive() {
    let t: u64 = 1_700_000_000;
    let (store, id) = store_with_user("a@example.com");
    let token = issue("a@example.com", KEY, 300, t).unwrap();
    for scheme in ["bearer", "BEARER", "BeArEr"] {
        let header = format!("{} {}", scheme, token);
        let user = AuthenticatedUser::from_request(Some(&header), &store, &test_config(), t + 10)
            .unwrap();
        assert_eq!(user.id, id);
    }
}

#[test]
fn bearer_token_under_wrong_key_is_an_invalid_token() {
    let t: u64 = 1_700_000_000;
    let (store, _) = store_with_user("a@example.com");
    let token = issue("a@example.com", "some-other-psk", 300, t).unwrap();
    let header = format!("Bearer {}", token);
    let r = AuthenticatedUser::from_request(Some(&header), &store, &test_config(), t + 10);
    assert_eq!(r.unwrap_err(), AuthorizationError::InvalidToken);
}

#[test]
fn expired_bearer_token_is_an_invalid_token() {
    let t: u64 = 1_700_000_000;
    let (store, _) = store_with_user("a@example.com");
    let token = issue("a@example.com", KEY, 300, t).unwrap();
    let header = format!("Bearer {}", token);
    let r = AuthenticatedUser::from_request(Some(&header), &store, &test_config(), t + 400);
    assert_eq!(r.unwrap_err(), AuthorizationError::InvalidToken);
}

#[test]
fn bearer_token_whose_subject_resolves_to_no_user_is_an_invalid_token() {
    let t: u64 = 1_700_000_000;
    let store = CredentialStore::new();
    let token = issue("ghost@example.com", KEY, 300, t).unwrap();
    let header = format!("Bearer {}", token);
    let r = AuthenticatedUser::from_request(Some(&header), &store, &test_config(), t + 10);
    assert_eq!(r.unwrap_err(), AuthorizationError::InvalidToken);
}

#[test]
fn pat_credential_without_a_colon_is_malformed() {
    let store = CredentialStore::new();
    let r = AuthenticatedUser::from_request(Some("PAT abc"), &store, &test_config(), 0);
    assert_eq!(r.unwrap_err(), AuthorizationError::MalformedAuthorizationHeader);
}

#[test]
fn pat_credential_with_two_colons_is_malformed() {
    let store = CredentialStore::new();
    let r = AuthenticatedUser::from_request(Some("PAT a:b:c"), &store, &test_config(), 0);
    assert_eq!(r.unwrap_err(), AuthorizationError::MalformedAuthorizationHeader);
}

#[test]
fn known_active_pat_authenticates_its_owner() {
    let mut store = CredentialStore::new();
    store.insert_pat(
        NewPersonalAccessToken {
            name: "ci".to_string(),
            user_id: 42,
            token: "pub-token".to_string(),
            secret: "sec-token".to_string(),
        },
        1_700_000_000,
    );
    let user = AuthenticatedUser::from_request(
        Some("PAT pub-token:sec-token"),
        &store,
        &test_config(),
        0,
    )
    .unwrap();
    assert_eq!(user.id, 42);
    assert_eq!(user.used_pat, "pub-token");
}

#[test]
fn unknown_pat_is_an_invalid_token() {
    let store = CredentialStore::new();
    let r = AuthenticatedUser::from_request(Some("PAT a:b"), &store, &test_config(), 0);
    assert_eq!(r.unwrap_err(), AuthorizationError::InvalidToken);
}
