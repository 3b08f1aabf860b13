//! Password login: look the user up by email, verify the password
//! against the stored hash, and on success issue a bearer token.
//!
//! Unknown email and wrong password are deliberately merged into one
//! unauthorized outcome, and the unknown-email path burns a hash
//! verification against a fixed reference hash so that the two paths
//! take indistinguishable time.

use vstd::prelude::*;

verus! {

use crate::claims;
use crate::claims::jwt_token_of;
use crate::claims::round_trip_outcome;
use crate::claims::spec_decode;
use crate::config::BackendConfiguration;
use crate::store::CredentialStore;
use crate::store::count_users_with_email;
use crate::store::lemma_count_one_unique;

/// The caller-supplied login form.
pub struct Credentials {
    /// The email address of the user, used as the username.
    pub email: String,
    /// The password of the user.
    pub password: String,
}

/// The successful login response.
#[derive(Debug)]
pub struct TokenResponse {
    /// The access token to use for API requests.
    pub access_token: String,
}

/// Why a login failed. Unknown email and wrong password are one merged
/// outcome by design.
#[derive(Debug, Clone, Copy, PartialEq, Eq, Structural)]
pub enum LoginError {
    Unauthorized,
    InternalFailure,
}

/// Whether a password matches a stored bcrypt hash, or `None` when the
/// stored hash string cannot be interpreted; a function of its arguments
/// alone.
pub uninterp spec fn bcrypt_matches(password: Seq<char>, hash: Seq<char>) -> Option<bool>;

/// Relies on bcrypt::verify: the outcome is deterministic in the
/// password and the stored hash, compared in constant time, and an error
/// comes only of a hash string that is not a valid bcrypt hash.
#[verifier::external_body]
fn bcrypt_verify(password: &str, hash: &str) -> (r: Option<bool>)
    ensures
        r == bcrypt_matches(password@, hash@),
{
    bcrypt::verify(password, hash).ok()
}

/// A fixed well-formed reference hash; the unknown-email path verifies
/// a fixed password against it purely to equalize timing.
const TIMING_REFERENCE_HASH: &'static str = "$2y$12$7xMzqvnHyizkumZYpIRXheGMAqDKVo8HKtpmQSn51JUfY0N2VN4ua";

const TIMING_REFERENCE_PASSWORD: &'static str = "some_password";

/// The login flow at time `now`.
///
/// The second condition pins the outcome whenever exactly one identity
/// record carries the address: a password that verifies against the
/// stored hash is owed a token for that very subject, a password that
/// does not is the merged unauthorized outcome, and an unreadable hash
/// is an internal failure. The first condition makes zero or several
/// matching records indistinguishable from a wrong password.
pub fn get_authentication_token(
    store: &CredentialStore,
    credentials: &Credentials,
    config: &BackendConfiguration,
    now: u64,
) -> (r: Result<TokenResponse, LoginError>)
    requires
        now + 1 + config.access_token_lifetime_in_seconds <= u64::MAX,
    ensures
        count_users_with_email(store@.users, credentials.email@) != 1 ==> r == Err::<
            TokenResponse,
            LoginError,
        >(LoginError::Unauthorized),
        forall|i: int|
            (0 <= i < store@.users.len() && (#[trigger] store@.users[i]).email
                == credentials.email@ && count_users_with_email(store@.users, credentials.email@)
                == 1) ==> match bcrypt_matches(
                credentials.password@,
                store@.users[i].password_hash,
            ) {
                Some(true) => (r matches Ok(t) && ({
                    &&& t.access_token@ == jwt_token_of(
                        (now + 1 + config.access_token_lifetime_in_seconds) as u64,
                        now,
                        (now + 1) as u64,
                        credentials.email@,
                        config.token_signature_psk@,
                    )
                    &&& forall|at: u64|
                        #[trigger] spec_decode(
                            t.access_token@,
                            config.token_signature_psk@,
                            at,
                        ) == round_trip_outcome(
                            (now + 1 + config.access_token_lifetime_in_seconds) as u64,
                            now,
                            (now + 1) as u64,
                            credentials.email@,
                            at,
                        )
                })),
                Some(false) => r == Err::<TokenResponse, LoginError>(LoginError::Unauthorized),
                None => r == Err::<TokenResponse, LoginError>(LoginError::InternalFailure),
            },
{
    let looked_up = store.find_user_password_hash(credentials.email.as_str());
    let (user_id, password_hash) = match looked_up {
        Some(f) => f,
        None => {
            // burn one hash verification so that an unknown address takes
            // as long as a known one with a wrong password
            let _ = bcrypt_verify(TIMING_REFERENCE_PASSWORD, TIMING_REFERENCE_HASH);
            return Err(LoginError::Unauthorized);
        },
    };
    proof {
        assert forall|i: int|
            0 <= i < store@.users.len() && (#[trigger] store@.users[i]).email
                == credentials.email@ implies store@.users[i].password_hash == password_hash@ by {
            let j0 = choose|j: int|
                0 <= j < store@.users.len() && (#[trigger] store@.users[j]).email
                    == credentials.email@ && store@.users[j].id == user_id
                    && store@.users[j].password_hash == password_hash@;
            lemma_count_one_unique(store@.users, credentials.email@, i, j0);
        }
    }
    match bcrypt_verify(credentials.password.as_str(), password_hash.as_str()) {
        None => Err(LoginError::InternalFailure),
        Some(false) => Err(LoginError::Unauthorized),
        Some(true) => {
            match claims::issue(
                credentials.email.as_str(),
                config.token_signature_psk.as_str(),
                config.access_token_lifetime_in_seconds,
                now,
            ) {
                Ok(token) => Ok(TokenResponse { access_token: token }),
                Err(_) => Err(LoginError::InternalFailure),
            }
        },
    }
}

} // verus!
