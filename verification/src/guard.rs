//! The request guard: parse the `Authorization` header, classify the
//! scheme, and dispatch to the bearer or the personal-access-token
//! verification path.
//!
//! Every failure of the two verification paths is reported as one opaque
//! invalid-token condition; only the shape of the header itself is
//! reported separately.

use vstd::prelude::*;

verus! {

use crate::claims::spec_decode;
use crate::config::BackendConfiguration;
use crate::store::CredentialStore;
use crate::store::PatView;
use crate::store::StoreView;
use crate::store::disabled_at;
use crate::store::is_first_active_pat_match;
use crate::store::is_first_user_match;
use crate::store::pat_matches_active;
use crate::store::spec_disable_pats;

/// The representation of an authenticated caller. Produced once per
/// request by the guard and consumed by the protected route handlers.
#[derive(Debug)]
pub struct AuthenticatedUser {
    /// The internally used id of the current user.
    pub id: i32,
    /// The public personal access token which was used, or an empty
    /// string if the caller used a bearer token. It distinguishes the two
    /// flows for downstream decisions such as self-disabling a token.
    pub used_pat: String,
}

/// The classified failures of the guard. All of them short-circuit the
/// request before any protected handler runs.
#[derive(Debug, Clone, Copy, PartialEq, Eq, Structural)]
pub enum AuthorizationError {
    /// Could not find any authorization header in the request.
    MissingAuthorizationHeader,
    /// The authorization header is not well-formed: wrong part count, an
    /// unknown scheme, or an unparsable credential pair.
    MalformedAuthorizationHeader,
    /// The supplied credential is not valid; a bad signature, an expired
    /// or not-yet-valid token, and an unknown or disabled access token
    /// are deliberately indistinguishable here.
    InvalidToken,
}

/// The two supported authentication schemes, as a closed classification
/// of the header's first part.
#[derive(Debug, Clone, Copy, PartialEq, Eq, Structural)]
pub enum AuthenticationScheme {
    Bearer,
    Pat,
}

/// ASCII lower-casing of one character; every character outside `A`..`Z`
/// is kept as it is.
pub open spec fn ascii_lower_char(c: char) -> char {
    if 'A' <= c && c <= 'Z' {
        ((c as u32) + 32) as char
    } else {
        c
    }
}

/// ASCII lower-casing of a character sequence.
pub open spec fn ascii_lower(s: Seq<char>) -> Seq<char> {
    s.map_values(|c: char| ascii_lower_char(c))
}

/// The separator occurs at exactly one position.
pub open spec fn has_exactly_one(s: Seq<char>, sep: char) -> bool {
    &&& exists|i: int| 0 <= i < s.len() && s[i] == sep
    &&& forall|i: int, j: int|
        0 <= i < s.len() && 0 <= j < s.len() && s[i] == sep && s[j] == sep ==> i == j
}

/// The position of the separator, meaningful when it occurs exactly once.
pub open spec fn sep_position(s: Seq<char>, sep: char) -> int {
    choose|i: int| 0 <= i < s.len() && s[i] == sep
}

/// How the guard classifies the scheme part: case-insensitively, into
/// the closed set of supported schemes.
pub open spec fn spec_classify_scheme(s: Seq<char>) -> Option<AuthenticationScheme> {
    if ascii_lower(s) == "bearer"@ {
        Some(AuthenticationScheme::Bearer)
    } else if ascii_lower(s) == "pat"@ {
        Some(AuthenticationScheme::Pat)
    } else {
        None
    }
}

fn lower_char(c: char) -> (r: char)
    ensures
        r == ascii_lower_char(c),
{
    if 'A' <= c && c <= 'Z' {
        (((c as u32) + 32) as u8) as char
    } else {
        c
    }
}

/// Case-insensitive (ASCII) comparison of two strings.
fn eq_ignore_ascii_case(a: &str, b: &str) -> (r: bool)
    ensures
        r == (ascii_lower(a@) == ascii_lower(b@)),
{
    let a_len = a.unicode_len();
    let b_len = b.unicode_len();
    proof {
        assert(ascii_lower(a@).len() == a@.len());
        assert(ascii_lower(b@).len() == b@.len());
    }
    if a_len != b_len {
        return false;
    }
    let mut i: usize = 0;
    while i < a_len
        invariant
            a_len == a@.len(),
            b_len == b@.len(),
            a_len == b_len,
            i <= a_len,
            forall|j: int| 0 <= j < i ==> ascii_lower_char(a@[j]) == ascii_lower_char(b@[j]),
        decreases a_len - i,
    {
        let ca = a.get_char(i);
        let cb = b.get_char(i);
        if lower_char(ca) != lower_char(cb) {
            proof {
                assert(ascii_lower(a@)[i as int] == ascii_lower_char(a@[i as int]));
                assert(ascii_lower(b@)[i as int] == ascii_lower_char(b@[i as int]));
            }
            return false;
        }
        i += 1;
    }
    proof {
        assert forall|j: int| 0 <= j < a@.len() implies ascii_lower(a@)[j] == ascii_lower(b@)[j] by {
            assert(ascii_lower_char(a@[j]) == ascii_lower_char(b@[j]));
        }
        assert(ascii_lower(a@) =~= ascii_lower(b@));
    }
    true
}

/// Split `s` at its only occurrence of `sep` into the parts before and
/// after it; `None` unless the separator occurs exactly once.
fn split_exact_pair(s: &str, sep: char) -> (r: Option<(String, String)>)
    ensures
        r is Some <==> has_exactly_one(s@, sep),
        r matches Some(p) ==> p.0@ == s@.subrange(0, sep_position(s@, sep)) && p.1@ == s@.subrange(
            sep_position(s@, sep) + 1,
            s@.len() as int,
        ),
{
    let n = s.unicode_len();
    let mut i: usize = 0;
    let mut found: Option<usize> = None;
    while i < n
        invariant
            n == s@.len(),
            i <= n,
            match found {
                Some(k) => 0 <= k < i && s@[k as int] == sep && forall|j: int|
                    0 <= j < i && j != k ==> s@[j] != sep,
                None => forall|j: int| 0 <= j < i ==> s@[j] != sep,
            },
        decreases n - i,
    {
        let c = s.get_char(i);
        if c == sep {
            if let Some(k) = found {
                proof {
                    assert(s@[k as int] == sep && s@[i as int] == sep && k as int != i as int);
                    assert(!has_exactly_one(s@, sep));
                }
                return None;
            }
            found = Some(i);
        }
        i += 1;
    }
    match found {
        Some(k) => {
            proof {
                assert(has_exactly_one(s@, sep)) by {
                    assert(0 <= (k as int) && (k as int) < s@.len() && s@[k as int] == sep);
                }
                let m = sep_position(s@, sep);
                assert(0 <= m < s@.len() && s@[m] == sep);
                assert(m == k as int);
            }
            let first = s.substring_char(0, k).to_owned();
            let second = s.substring_char(k + 1, n).to_owned();
            Some((first, second))
        },
        None => {
            proof {
                assert(!has_exactly_one(s@, sep));
            }
            None
        },
    }
}

/// Classify the scheme part of the header, case-insensitively.
fn classify_scheme(s: &str) -> (r: Option<AuthenticationScheme>)
    ensures
        r == spec_classify_scheme(s@),
{
    proof {
        reveal_strlit("bearer");
        reveal_strlit("pat");
        assert(ascii_lower("bearer"@) =~= "bearer"@);
        assert(ascii_lower("pat"@) =~= "pat"@);
    }
    if eq_ignore_ascii_case(s, "bearer") {
        Some(AuthenticationScheme::Bearer)
    } else if eq_ignore_ascii_case(s, "pat") {
        Some(AuthenticationScheme::Pat)
    } else {
        None
    }
}

/// The outcome of the bearer path: decode the token under the configured
/// key at time `now`, then resolve the subject to the first user carrying
/// that email address. A token whose subject resolves to no user fails
/// like every other post-signature failure, as an invalid token.
pub open spec fn spec_bearer_flow(
    credential: Seq<char>,
    store: StoreView,
    key: Seq<char>,
    now: u64,
) -> Result<(i32, Seq<char>), AuthorizationError> {
    match spec_decode(credential, key, now) {
        Err(_) => Err(AuthorizationError::InvalidToken),
        Ok(claims) => if exists|i: int| is_first_user_match(store.users, claims.3, i) {
            Ok(
                (
                    store.users[choose|i: int| is_first_user_match(store.users, claims.3, i)].id,
                    Seq::<char>::empty(),
                ),
            )
        } else {
            Err(AuthorizationError::InvalidToken)
        },
    }
}

/// The outcome of the access-token path: split the credential at its only
/// `:` into public token and secret, then look the pair up among the
/// active rows. An unparsable pair is a malformed header; an unknown or
/// disabled pair is an invalid token.
pub open spec fn spec_pat_flow(credential: Seq<char>, store: StoreView) -> Result<
    (i32, Seq<char>),
    AuthorizationError,
> {
    if !has_exactly_one(credential, ':') {
        Err(AuthorizationError::MalformedAuthorizationHeader)
    } else {
        let token = credential.subrange(0, sep_position(credential, ':'));
        let secret = credential.subrange(sep_position(credential, ':') + 1, credential.len() as int);
        if exists|i: int| is_first_active_pat_match(store.pats, token, secret, i) {
            Ok(
                (
                    store.pats[choose|i: int|
                        is_first_active_pat_match(store.pats, token, secret, i)].user_id,
                    token,
                ),
            )
        } else {
            Err(AuthorizationError::InvalidToken)
        }
    }
}

/// The ghost image of an optional header value.
pub open spec fn spec_header_view(header: Option<&str>) -> Option<Seq<char>> {
    match header {
        Some(h) => Some(h@),
        None => None,
    }
}

/// The guard's whole decision: an absent header is missing; a header
/// without exactly two space-separated parts, or with an unknown scheme,
/// is malformed; otherwise the classified flow decides.
pub open spec fn spec_authenticate(
    header: Option<Seq<char>>,
    store: StoreView,
    key: Seq<char>,
    now: u64,
) -> Result<(i32, Seq<char>), AuthorizationError> {
    match header {
        None => Err(AuthorizationError::MissingAuthorizationHeader),
        Some(h) => if !has_exactly_one(h, ' ') {
            Err(AuthorizationError::MalformedAuthorizationHeader)
        } else {
            match spec_classify_scheme(h.subrange(0, sep_position(h, ' '))) {
                None => Err(AuthorizationError::MalformedAuthorizationHeader),
                Some(AuthenticationScheme::Bearer) => spec_bearer_flow(
                    h.subrange(sep_position(h, ' ') + 1, h.len() as int),
                    store,
                    key,
                    now,
                ),
                Some(AuthenticationScheme::Pat) => spec_pat_flow(
                    h.subrange(sep_position(h, ' ') + 1, h.len() as int),
                    store,
                ),
            }
        },
    }
}

proof fn lemma_first_user_match_unique(users: Seq<crate::store::UserView>, email: Seq<char>, i1: int, i2: int)
    requires
        is_first_user_match(users, email, i1),
        is_first_user_match(users, email, i2),
    ensures
        i1 == i2,
{
}

proof fn lemma_first_active_pat_match_unique(
    pats: Seq<PatView>,
    token: Seq<char>,
    secret: Seq<char>,
    i1: int,
    i2: int,
)
    requires
        is_first_active_pat_match(pats, token, secret, i1),
        is_first_active_pat_match(pats, token, secret, i2),
    ensures
        i1 == i2,
{
}

proof fn lemma_pair_credential_parse(token: Seq<char>, secret: Seq<char>)
    requires
        !token.contains(':'),
        !secret.contains(':'),
    ensures
        has_exactly_one(token + seq![':'] + secret, ':'),
        sep_position(token + seq![':'] + secret, ':') == token.len() as int,
        (token + seq![':'] + secret).subrange(0, token.len() as int) == token,
        (token + seq![':'] + secret).subrange(
            token.len() as int + 1,
            (token + seq![':'] + secret).len() as int,
        ) == secret,
{
    let h = token + seq![':'] + secret;
    let k = token.len() as int;
    assert(h.len() == token.len() + 1 + secret.len());
    assert(h[k] == ':');
    assert forall|i: int| 0 <= i < h.len() && i != k implies h[i] != ':' by {
        if i < k {
            assert(h[i] == token[i]);
            if token[i] == ':' {
                assert(token.contains(':'));
            }
        } else {
            assert(h[i] == secret[i - k - 1]);
            if secret[i - k - 1] == ':' {
                assert(secret.contains(':'));
            }
        }
    }
    assert(has_exactly_one(h, ':'));
    let m = sep_position(h, ':');
    assert(0 <= m < h.len() && h[m] == ':');
    assert(m == k);
    assert(h.subrange(0, k) =~= token);
    assert(h.subrange(k + 1, h.len() as int) =~= secret);
}

/// A freshly created credential pair authenticates its owner: when the
/// last row of the table is an enabled row carrying the pair, its parts
/// are free of the `:` separator, and no earlier row is an active match
/// for the pair, the access-token path on `token:secret` yields the
/// owning user's id and the public token. Together with
/// `crate::pat::create_new_pat`'s contract — which appends exactly such
/// a row, spelled from characters without any separator — this closes
/// the create-then-authenticate half of the token lifecycle.
pub proof fn lemma_fresh_pat_authenticates(store: StoreView, token: Seq<char>, secret: Seq<char>)
    requires
        !token.contains(':'),
        !secret.contains(':'),
        store.pats.len() > 0,
        store.pats.last().token == token,
        store.pats.last().secret == secret,
        !store.pats.last().disabled,
        forall|i: int|
            0 <= i < store.pats.len() - 1 ==> !pat_matches_active(
                #[trigger] store.pats[i],
                token,
                secret,
            ),
    ensures
        spec_pat_flow(token + seq![':'] + secret, store) == Ok::<
            (i32, Seq<char>),
            AuthorizationError,
        >((store.pats.last().user_id, token)),
{
    lemma_pair_credential_parse(token, secret);
    let n = store.pats.len() as int;
    assert(pat_matches_active(store.pats[n - 1], token, secret));
    assert(is_first_active_pat_match(store.pats, token, secret, n - 1));
    let i0 = choose|i: int| is_first_active_pat_match(store.pats, token, secret, i);
    lemma_first_active_pat_match_unique(store.pats, token, secret, i0, n - 1);
}

/// A disabled credential pair never authenticates again: after a pass of
/// the disable operation over its public token — the table
/// `crate::store::CredentialStore::disable_pat` leaves behind — the
/// access-token path on `token:secret` yields the opaque invalid-token
/// failure, whatever the table held before.
pub proof fn lemma_disabled_pat_rejected(
    store: StoreView,
    earlier: Seq<PatView>,
    token: Seq<char>,
    secret: Seq<char>,
    at: u64,
)
    requires
        !token.contains(':'),
        !secret.contains(':'),
        store.pats == spec_disable_pats(earlier, token, at),
    ensures
        spec_pat_flow(token + seq![':'] + secret, store) == Err::<
            (i32, Seq<char>),
            AuthorizationError,
        >(AuthorizationError::InvalidToken),
{
    lemma_pair_credential_parse(token, secret);
    assert forall|i: int| 0 <= i < store.pats.len() implies !pat_matches_active(
        #[trigger] store.pats[i],
        token,
        secret,
    ) by {
        assert(store.pats[i] == (if earlier[i].token == token {
            disabled_at(earlier[i], at)
        } else {
            earlier[i]
        }));
    }
    if exists|i: int| is_first_active_pat_match(store.pats, token, secret, i) {
        let i0 = choose|i: int| is_first_active_pat_match(store.pats, token, secret, i);
        assert(pat_matches_active(store.pats[i0], token, secret));
    }
}

impl AuthenticatedUser {
    /// The personal-access-token authentication flow, on the credential
    /// part of the header.
    pub fn pat_flow(credential: &str, store: &CredentialStore) -> (r: Result<
        AuthenticatedUser,
        AuthorizationError,
    >)
        ensures
            match r {
                Ok(u) => spec_pat_flow(credential@, store@) == Ok::<
                    (i32, Seq<char>),
                    AuthorizationError,
                >((u.id, u.used_pat@)),
                Err(e) => spec_pat_flow(credential@, store@) == Err::<
                    (i32, Seq<char>),
                    AuthorizationError,
                >(e),
            },
    {
        let parts = match split_exact_pair(credential, ':') {
            Some(p) => p,
            None => {
                return Err(AuthorizationError::MalformedAuthorizationHeader);
            },
        };
        let ghost token_v = credential@.subrange(0, sep_position(credential@, ':'));
        let ghost secret_v = credential@.subrange(
            sep_position(credential@, ':') + 1,
            credential@.len() as int,
        );
        match store.find_active_pat_by_token_and_secret(parts.0.as_str(), parts.1.as_str()) {
            Some((user_id, stored_token)) => {
                proof {
                    let j0 = choose|j: int|
                        #[trigger] is_first_active_pat_match(store@.pats, token_v, secret_v, j)
                            && store@.pats[j].user_id == user_id && store@.pats[j].token
                            == stored_token@;
                    let i0 = choose|i: int|
                        is_first_active_pat_match(store@.pats, token_v, secret_v, i);
                    lemma_first_active_pat_match_unique(store@.pats, token_v, secret_v, i0, j0);
                }
                Ok(AuthenticatedUser { id: user_id, used_pat: stored_token })
            },
            None => {
                proof {
                    if exists|i: int| is_first_active_pat_match(store@.pats, token_v, secret_v, i) {
                        let i0 = choose|i: int|
                            is_first_active_pat_match(store@.pats, token_v, secret_v, i);
                        assert(crate::store::pat_matches_active(
                            store@.pats[i0],
                            token_v,
                            secret_v,
                        ));
                    }
                }
                Err(AuthorizationError::InvalidToken)
            },
        }
    }

    /// The bearer authentication flow, on the credential part of the
    /// header: token decoding under the configured key, then subject
    /// resolution.
    pub fn bearer_flow(
        credential: &str,
        store: &CredentialStore,
        config: &BackendConfiguration,
        now: u64,
    ) -> (r: Result<AuthenticatedUser, AuthorizationError>)
        ensures
            match r {
                Ok(u) => spec_bearer_flow(credential@, store@, config.token_signature_psk@, now)
                    == Ok::<(i32, Seq<char>), AuthorizationError>((u.id, u.used_pat@)),
                Err(e) => spec_bearer_flow(credential@, store@, config.token_signature_psk@, now)
                    == Err::<(i32, Seq<char>), AuthorizationError>(e),
            },
    {
        let claims = match crate::claims::decode(
            credential,
            config.token_signature_psk.as_str(),
            now,
        ) {
            Ok(c) => c,
            Err(_) => {
                return Err(AuthorizationError::InvalidToken);
            },
        };
        match store.find_user_id_by_email(claims.sub.as_str()) {
            Some(id) => {
                proof {
                    let j0 = choose|j: int|
                        #[trigger] is_first_user_match(store@.users, claims.sub@, j)
                            && store@.users[j].id == id;
                    let i0 = choose|i: int| is_first_user_match(store@.users, claims.sub@, i);
                    lemma_first_user_match_unique(store@.users, claims.sub@, i0, j0);
                }
                Ok(AuthenticatedUser { id, used_pat: String::new() })
            },
            None => {
                proof {
                    if exists|i: int| is_first_user_match(store@.users, claims.sub@, i) {
                        let i0 = choose|i: int| is_first_user_match(store@.users, claims.sub@, i);
                        assert(store@.users[i0].email == claims.sub@);
                    }
                }
                Err(AuthorizationError::InvalidToken)
            },
        }
    }

    /// The whole guard: runs before any protected route handler and
    /// either yields the authenticated caller or the classified failure
    /// that short-circuits the request.
    pub fn from_request(
        header: Option<&str>,
        store: &CredentialStore,
        config: &BackendConfiguration,
        now: u64,
    ) -> (r: Result<AuthenticatedUser, AuthorizationError>)
        ensures
            match r {
                Ok(u) => spec_authenticate(
                    spec_header_view(header),
                    store@,
                    config.token_signature_psk@,
                    now,
                ) == Ok::<(i32, Seq<char>), AuthorizationError>((u.id, u.used_pat@)),
                Err(e) => spec_authenticate(
                    spec_header_view(header),
                    store@,
                    config.token_signature_psk@,
                    now,
                ) == Err::<(i32, Seq<char>), AuthorizationError>(e),
            },
    {
        let h = match header {
            Some(h) => h,
            None => {
                return Err(AuthorizationError::MissingAuthorizationHeader);
            },
        };
        let (scheme, credential) = match split_exact_pair(h, ' ') {
            Some(p) => p,
            None => {
                return Err(AuthorizationError::MalformedAuthorizationHeader);
            },
        };
        match classify_scheme(scheme.as_str()) {
            Some(AuthenticationScheme::Bearer) => Self::bearer_flow(
                credential.as_str(),
                store,
                config,
                now,
            ),
            Some(AuthenticationScheme::Pat) => Self::pat_flow(credential.as_str(), store),
            None => Err(AuthorizationError::MalformedAuthorizationHeader),
        }
    }
}

} // verus!
