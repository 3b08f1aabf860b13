use minne_backend::claims::decode;
use minne_backend::config::BackendConfiguration;
use minne_backend::login::{get_authentication_token, Credentials, LoginError};
use minne_backend::store::{CredentialStore, NewUser};

const KEY: &str = "login-signature-psk";

fn test_config() -> BackendConfiguration {
    BackendConfiguration {
        token_signature_psk: KEY.to_string(),
        access_token_lifetime_in_seconds: 300,
        refresh_token_lifetime_in_seconds: 3600,
        user_registration_enabled: false,
    }
}

fn user_row(email: &str, password_hash: &str) -> NewUser {
    NewUser {
        first_name: "Ada".to_string(),
        last_name: "Lovelace".to_string(),
        email: email.to_string(),
        password_hash: password_hash.to_string(),
    }
}

fn credentials(email: &str, password: &str) -> Credentials {
    Credentials { email: email.to_string(), password: password.to_string() }
}

#[test]
fn correct_password_yields_a_decodable_token_for_the_subject() {
    let mut store = CredentialStore::new();
    let hash = bcrypt::hash("open sesame", 4).unwrap();
    store.add_user(user_row("a@example.com", &hash), 1_700_000_000);
    let now: u64 = 1_700_000_000;
    let response =
        get_authentication_token(&store, &credentials("a@example.com", "open sesame"), &test_config(), now)
            .unwrap();
    let claims = decode(&response.access_token, KEY, now + 10).unwrap();
    assert_eq!(claims.sub, "a@example.com");
    assert_eq!(claims.iat, now);
    assert_eq!(claims.nbf, now + 1);
    assert_eq!(claims.exp, now + 301);
}

#[test]
fn wrong_password_is_unauthorized() {
    let mut store = CredentialStore::new();
    let hash = bcrypt::hash("open sesame", 4).unwrap();
    store.add_user(user_row("a@example.com", &hash), 1_700_000_000);
    let r = get_authentication_token(
        &store,
        &credentials("a@example.com", "wrong"),
        &test_config(),
        1_700_000_000,
    );
    assert_eq!(r.unwrap_err(), LoginError::Unauthorized);
}

#[test]
fn unknown_email_is_unauthorized() {
    let store = CredentialStore::new();
    let r = get_authentication_token(
        &store,
        &credentials("nobody@example.com", "whatever"),
        &test_config(),
        1_700_000_000,
    );
    assert_eq!(r.unwrap_err(), LoginError::Unauthorized);
}

#[test]
fn duplicated_email_is_treated_as_not_found() {
    let mut store = CredentialStore::new();
    let hash = bcrypt::hash("open sesame", 4).unwrap();
    store.add_user(user_row("a@example.com", &hash), 1_700_000_000);
    store.add_user(user_row("a@example.com", &hash), 1_700_000_001);
    let r = get_authentication_token(
        &store,
        &credentials("a@example.com", "open sesame"),
        &test_config(),
        1_700_000_002,
    );
    assert_eq!(r.unwrap_err(), LoginError::Unauthorized);
}

#[test]
fn corrupt_stored_hash_is_an_internal_failure() {
    let mut store = CredentialStore::new();
    store.add_user(user_row("a@example.com", "not-a-bcrypt-hash"), 1_700_000_000);
    let r = get_authentication_token(
        &store,
        &credentials("a@example.com", "whatever"),
        &test_config(),
        1_700_000_000,
    );
    assert_eq!(r.unwrap_err(), LoginError::InternalFailure);
}

#[test]
fn login_timing_is_indistinguishable_for_unknown_email_and_wrong_password() {
    let mut store = CredentialStore::new();
    // the stored hash uses the same cost as the fixed reference hash
    let hash = bcrypt::hash("correct horse", 12).unwrap();
    store.add_user(user_row("known@example.com", &hash), 1_700_000_000);
    let config = test_config();

    // warm both paths up once before measuring
    let _ = get_authentication_token(
        &store,
        &credentials("unknown@example.com", "whatever"),
        &config,
        1_700_000_000,
    );
    let _ = get_authentication_token(
        &store,
        &credentials("known@example.com", "wrong"),
        &config,
        1_700_000_000,
    );

    let trials: u32 = 4;
    let mut unknown_total = std::time::Duration::ZERO;
    let mut wrong_total = std::time::Duration::ZERO;
    for _ in 0..trials {
        let start = std::time::Instant::now();
        let r = get_authentication_token(
            &store,
            &credentials("unknown@example.com", "whatever"),
            &config,
            1_700_000_000,
        );
        unknown_total += start.elapsed();
        assert_eq!(r.unwrap_err(), LoginError::Unauthorized);

        let start = std::time::Instant::now();
        let r = get_authentication_token(
            &store,
            &credentials("known@example.com", "wrong"),
            &config,
            1_700_000_000,
        );
        wrong_total += start.elapsed();
        assert_eq!(r.unwrap_err(), LoginError::Unauthorized);
    }
    let unknown_mean = unknown_total.as_secs_f64() / trials as f64;
    let wrong_mean = wrong_total.as_secs_f64() / trials as f64;
    assert!(
        (unknown_mean - wrong_mean).abs() < 0.5,
        "timing oracle: unknown {unknown_mean}s vs wrong password {wrong_mean}s"
    );
}
