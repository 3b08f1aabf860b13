//! Account creation: validation of the submitted form, hashing of the
//! password, and insertion of the new identity record.

use vstd::prelude::*;

verus! {

use crate::login::bcrypt_matches;
use crate::store::CredentialStore;
use crate::store::NewUser;
use crate::store::UserView;

/// The caller-supplied form for creating a new user.
pub struct NewUserCallData {
    /// The first name of the user.
    pub first_name: String,
    /// The last name of the user.
    pub last_name: String,
    /// The email address of the user, used as the username.
    pub email: String,
    /// The password of the user.
    pub password: String,
    /// The password repeated, to ensure the user entered it correctly.
    pub password_repeat: String,
}

/// A user-creation request is acceptable when the password is repeated
/// correctly and no required field is empty.
pub open spec fn spec_valid_new_user(new_user: NewUserCallData) -> bool {
    &&& new_user.password@ == new_user.password_repeat@
    &&& new_user.first_name@.len() > 0
    &&& new_user.last_name@.len() > 0
    &&& new_user.email@.len() > 0
    &&& new_user.password@.len() > 0
}

/// Why account creation failed. A rejected form and an already-taken
/// address are both a bad request, as the route reports them.
#[derive(Debug, Clone, Copy, PartialEq, Eq, Structural)]
pub enum RegistrationError {
    BadRequest,
    InternalFailure,
}

/// Relies on bcrypt::hash with a cost of 12, together with
/// bcrypt::verify: the freshly salted hash of the password is a hash
/// that verify accepts for this very password. The salt is drawn from
/// the operating system, so nothing else is promised of the value.
#[verifier::external_body]
fn bcrypt_hash_cost_12(password: &str) -> (r: Option<String>)
    ensures
        r matches Some(h) ==> bcrypt_matches(password@, h@) == Some(true),
{
    bcrypt::hash(password, 12).ok()
}

/// Whether a user-creation request is acceptable.
pub fn validate_new_user_call_data(new_user: &NewUserCallData) -> (r: bool)
    ensures
        r == spec_valid_new_user(*new_user),
{
    // ensure that the password and the repeated password are the same
    if !(new_user.password == new_user.password_repeat) {
        return false;
    }
    // check that all fields in the passed data are set and not empty
    if new_user.first_name.as_str().is_empty() || new_user.last_name.as_str().is_empty()
        || new_user.email.as_str().is_empty() || new_user.password.as_str().is_empty() {
        return false;
    }
    true
}

/// Create a new user from the submitted form: an invalid form, and an
/// email address that some record already carries, are rejected as bad
/// requests before anything is stored; otherwise the password is hashed
/// and the record appended, and the new user's id is returned. Only a
/// failure to hash is an internal failure.
pub fn create_new_user(store: &mut CredentialStore, new_user: &NewUserCallData, now: u64) -> (r:
    Result<i32, RegistrationError>)
    requires
        old(store)@.next_user_id < i32::MAX,
    ensures
        (!spec_valid_new_user(*new_user) || exists|i: int|
            0 <= i < old(store)@.users.len() && (#[trigger] old(store)@.users[i]).email
                == new_user.email@) ==> r == Err::<i32, RegistrationError>(
            RegistrationError::BadRequest,
        ) && final(store)@ == old(store)@,
        (spec_valid_new_user(*new_user) && (forall|i: int|
            0 <= i < old(store)@.users.len() ==> (#[trigger] old(store)@.users[i]).email
                != new_user.email@)) ==> match r {
            Ok(id) => ({
                &&& id == old(store)@.next_user_id
                &&& exists|h: Seq<char>|
                    #[trigger] bcrypt_matches(new_user.password@, h) == Some(true)
                        && final(store)@.users == old(store)@.users.push(
                        UserView {
                            id: old(store)@.next_user_id,
                            first_name: new_user.first_name@,
                            last_name: new_user.last_name@,
                            email: new_user.email@,
                            password_hash: h,
                            created_at: now,
                            updated_at: now,
                        },
                    )
                &&& final(store)@.pats == old(store)@.pats
                &&& final(store)@.next_user_id == old(store)@.next_user_id + 1
                &&& final(store)@.next_pat_id == old(store)@.next_pat_id
            }),
            Err(e) => e == RegistrationError::InternalFailure && final(store)@ == old(store)@,
        },
{
    // ensure that the form itself is acceptable
    if !validate_new_user_call_data(new_user) {
        return Err(RegistrationError::BadRequest);
    }
    // an address that is already taken cannot be registered again
    if store.email_exists(new_user.email.as_str()) {
        return Err(RegistrationError::BadRequest);
    }
    let password_hash = match bcrypt_hash_cost_12(new_user.password.as_str()) {
        Some(h) => h,
        None => {
            return Err(RegistrationError::InternalFailure);
        },
    };
    let ghost hash_view = password_hash@;
    let id = store.add_user(
        NewUser {
            first_name: new_user.first_name.clone(),
            last_name: new_user.last_name.clone(),
            email: new_user.email.clone(),
            password_hash,
        },
        now,
    );
    proof {
        assert(bcrypt_matches(new_user.password@, hash_view) == Some(true));
    }
    Ok(id)
}

} // verus!
