use minne_backend::config::BackendConfiguration;
use minne_backend::health::check_backend_health;
use minne_backend::login::{get_authentication_token, Credentials};
use minne_backend::registration::{
    create_new_user, validate_new_user_call_data, NewUserCallData, RegistrationError,
};
use minne_backend::store::CredentialStore;
use minne_backend::task::{filter_unknown_task_ids, UnknownTasksRequest};
use minne_backend::version::VersionInformation;

fn form(
    first_name: &str,
    last_name: &str,
    email: &str,
    password: &str,
    password_repeat: &str,
) -> NewUserCallData {
    NewUserCallData {
        first_name: first_name.to_string(),
        last_name: last_name.to_string(),
        email: email.to_string(),
        password: password.to_string(),
        password_repeat: password_repeat.to_string(),
    }
}

#[test]
fn complete_registration_form_is_accepted() {
    assert!(validate_new_user_call_data(&form("Ada", "Lovelace", "a@example.com", "pw", "pw")));
}

#[test]
fn mismatched_password_repeat_is_rejected() {
    assert!(!validate_new_user_call_data(&form("Ada", "Lovelace", "a@example.com", "pw", "other")));
}

#[test]
fn empty_required_fields_are_rejected() {
    assert!(!validate_new_user_call_data(&form("", "Lovelace", "a@example.com", "pw", "pw")));
    assert!(!validate_new_user_call_data(&form("Ada", "", "a@example.com", "pw", "pw")));
    assert!(!validate_new_user_call_data(&form("Ada", "Lovelace", "", "pw", "pw")));
    assert!(!validate_new_user_call_data(&form("Ada", "Lovelace", "a@example.com", "", "")));
}

#[test]
fn created_user_can_log_in_with_the_registered_password() {
    let mut store = CredentialStore::new();
    let id = create_new_user(
        &mut store,
        &form("Ada", "Lovelace", "a@example.com", "open sesame", "open sesame"),
        1_700_000_000,
    )
    .unwrap();
    assert_eq!(id, 1);
    let config = BackendConfiguration {
        token_signature_psk: "registration-psk".to_string(),
        access_token_lifetime_in_seconds: 300,
        refresh_token_lifetime_in_seconds: 3600,
        user_registration_enabled: true,
    };
    let credentials = Credentials {
        email: "a@example.com".to_string(),
        password: "open sesame".to_string(),
    };
    let response = get_authentication_token(&store, &credentials, &config, 1_700_000_100);
    assert!(response.is_ok());
}

#[test]
fn invalid_registration_form_is_a_bad_request() {
    let mut store = CredentialStore::new();
    let r = create_new_user(
        &mut store,
        &form("Ada", "Lovelace", "a@example.com", "pw", "other"),
        1_700_000_000,
    );
    assert_eq!(r.unwrap_err(), RegistrationError::BadRequest);
}

#[test]
fn taken_email_address_is_a_bad_request() {
    let mut store = CredentialStore::new();
    create_new_user(
        &mut store,
        &form("Ada", "Lovelace", "a@example.com", "pw", "pw"),
        1_700_000_000,
    )
    .unwrap();
    let r = create_new_user(
        &mut store,
        &form("Alan", "Turing", "a@example.com", "pw", "pw"),
        1_700_000_001,
    );
    assert_eq!(r.unwrap_err(), RegistrationError::BadRequest);
}

#[test]
fn health_report_follows_the_database_probe() {
    let healthy = check_backend_health(true).unwrap();
    assert!(healthy.database_healthy);
    assert!(healthy.backend_healthy);
    assert!(check_backend_health(false).is_none());
}

#[test]
fn unknown_task_ids_are_filtered_in_order() {
    let owned: Vec<i32> = vec![1, 2, 3, 5, 8, 13];
    let request = UnknownTasksRequest { known_task_ids: vec![2, 8, 99] };
    assert_eq!(filter_unknown_task_ids(&owned, &request), vec![1, 3, 5, 13]);
}

#[test]
fn filtering_with_no_known_ids_keeps_everything() {
    let owned: Vec<i32> = vec![4, 4, 7];
    let request = UnknownTasksRequest { known_task_ids: Vec::new() };
    assert_eq!(filter_unknown_task_ids(&owned, &request), vec![4, 4, 7]);
}

#[test]
fn version_information_carries_its_fields() {
    let info = VersionInformation {
        backend_version: "1.2.3",
        backend_arch: "x86_64-unknown-linux-gnu",
        rustc_version: "1.95.0",
        build_date: "2026-01-01",
        build_time: "00:00:00",
    };
    assert_eq!(info.backend_version, "1.2.3");
    assert_eq!(info.build_date, "2026-01-01");
}
