//! Personal-access-token lifecycle: creating a fresh credential pair for
//! an authenticated caller, and disabling a token by its public token.

use vstd::prelude::*;

verus! {

use crate::guard::AuthenticatedUser;
use crate::store::CredentialStore;
use crate::store::NewPersonalAccessToken;
use crate::store::PatView;
use crate::store::count_pats_with_token;
use crate::store::spec_disable_pats;

/// The caller-supplied part of a token-creation request.
pub struct NewPersonalAccessTokenData {
    /// The name of the new personal access token.
    pub name: String,
}

/// The one-time reveal of a freshly created credential pair. The secret
/// is not retrievable again.
#[derive(Debug)]
pub struct PersonalAccessTokenResponse {
    pub token: String,
    pub secret: String,
}

/// Why a token-lifecycle operation failed.
#[derive(Debug, Clone, Copy, PartialEq, Eq, Structural)]
pub enum PatError {
    BadRequest,
    InternalFailure,
}

/// The characters an opaque token is spelled with: lowercase hex digits
/// and the hyphen. In particular no colon and no space, so a generated
/// pair always survives the guard's credential parsing.
pub open spec fn spec_opaque_token_char(c: char) -> bool {
    ('0' <= c && c <= '9') || ('a' <= c && c <= 'f') || c == '-'
}

/// An opaque token's spelling contains neither the `:` that separates a
/// credential pair nor the space that separates the header's parts.
pub proof fn lemma_opaque_chars_have_no_separator(s: Seq<char>)
    requires
        forall|i: int| 0 <= i < s.len() ==> spec_opaque_token_char(#[trigger] s[i]),
    ensures
        !s.contains(':'),
        !s.contains(' '),
{
    if s.contains(':') {
        let i = choose|i: int| 0 <= i < s.len() && s[i] == ':';
        assert(spec_opaque_token_char(s[i]));
    }
    if s.contains(' ') {
        let i = choose|i: int| 0 <= i < s.len() && s[i] == ' ';
        assert(spec_opaque_token_char(s[i]));
    }
}

/// Relies on getrandom::fill and uuid::Builder::from_random_bytes,
/// rendered in the hyphenated form: a freshly drawn random identifier,
/// 36 characters of lowercase hex digits and hyphens, or `None` when the
/// operating system's randomness source fails. Nothing else is promised
/// of the value.
#[verifier::external_body]
fn generate_opaque_token() -> (r: Option<String>)
    ensures
        r matches Some(s) ==> s@.len() == 36 && forall|i: int|
            0 <= i < s@.len() ==> spec_opaque_token_char(#[trigger] s@[i]),
{
    let mut bytes = [0u8; 16];
    match getrandom::fill(&mut bytes) {
        Ok(()) => Some(uuid::Builder::from_random_bytes(bytes).into_uuid().to_string()),
        Err(_) => None,
    }
}

/// Create a new personal access token for the authenticated caller: two
/// independently drawn opaque identifiers, persisted as an enabled row
/// owned by the caller, and both revealed to the caller exactly once.
/// Only a failure of the randomness source is an error, and it leaves
/// the store untouched.
pub fn create_new_pat(
    store: &mut CredentialStore,
    authenticated_user: &AuthenticatedUser,
    new_pat_data: &NewPersonalAccessTokenData,
    now: u64,
) -> (r: Result<PersonalAccessTokenResponse, PatError>)
    requires
        old(store)@.next_pat_id < i32::MAX,
    ensures
        r matches Err(e) ==> e == PatError::InternalFailure && final(store)@ == old(store)@,
        r matches Ok(resp) ==> ({
            &&& final(store)@.pats == old(store)@.pats.push(
                PatView {
                    id: old(store)@.next_pat_id,
                    name: new_pat_data.name@,
                    token: resp.token@,
                    secret: resp.secret@,
                    user_id: authenticated_user.id,
                    disabled: false,
                    created_at: now,
                    updated_at: now,
                },
            )
            &&& final(store)@.users == old(store)@.users
            &&& final(store)@.next_pat_id == old(store)@.next_pat_id + 1
            &&& final(store)@.next_user_id == old(store)@.next_user_id
            &&& resp.token@.len() == 36
            &&& resp.secret@.len() == 36
            &&& forall|i: int|
                0 <= i < resp.token@.len() ==> spec_opaque_token_char(#[trigger] resp.token@[i])
            &&& forall|i: int|
                0 <= i < resp.secret@.len() ==> spec_opaque_token_char(#[trigger] resp.secret@[i])
        }),
{
    let token = match generate_opaque_token() {
        Some(t) => t,
        None => {
            return Err(PatError::InternalFailure);
        },
    };
    let secret = match generate_opaque_token() {
        Some(s) => s,
        None => {
            return Err(PatError::InternalFailure);
        },
    };
    let new_pat = NewPersonalAccessToken {
        name: new_pat_data.name.clone(),
        user_id: authenticated_user.id,
        token: token.clone(),
        secret: secret.clone(),
    };
    let entries_added = store.insert_pat(new_pat, now);
    if entries_added != 1 {
        return Err(PatError::InternalFailure);
    }
    Ok(PersonalAccessTokenResponse { token, secret })
}

/// Disable a personal access token by its public token, at time `now`.
///
/// A token may only disable itself: a caller that did not authenticate
/// with a personal access token (its `used_pat` is empty), or that names
/// any token but the one it authenticated with, is rejected with a bad
/// request before storage is touched. Otherwise every row carrying the
/// public token is disabled, its update time bumped, and the number of
/// matched rows is reported, already-disabled rows included.
pub fn disable_pat(
    store: &mut CredentialStore,
    authenticated_user: &AuthenticatedUser,
    public_token: &str,
    now: u64,
) -> (r: Result<usize, PatError>)
    ensures
        (authenticated_user.used_pat@.len() == 0 || authenticated_user.used_pat@ != public_token@)
            ==> r == Err::<usize, PatError>(PatError::BadRequest) && final(store)@ == old(store)@,
        (authenticated_user.used_pat@.len() > 0 && authenticated_user.used_pat@ == public_token@)
            ==> ({
            &&& r matches Ok(n) && n == count_pats_with_token(old(store)@.pats, public_token@)
            &&& final(store)@.pats == spec_disable_pats(old(store)@.pats, public_token@, now)
            &&& final(store)@.users == old(store)@.users
            &&& final(store)@.next_user_id == old(store)@.next_user_id
            &&& final(store)@.next_pat_id == old(store)@.next_pat_id
        }),
{
    // a caller that did not use a personal access token cannot disable one
    if authenticated_user.used_pat.as_str().is_empty() {
        return Err(PatError::BadRequest);
    }
    // a personal access token may only disable itself
    let public_token_owned: String = public_token.to_owned();
    if !(authenticated_user.used_pat == public_token_owned) {
        return Err(PatError::BadRequest);
    }
    let affected = store.disable_pat(public_token, now);
    Ok(affected)
}

} // verus!
