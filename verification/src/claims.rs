//! Signed bearer-token claim sets: encoding, decoding and issuance.
//!
//! A bearer token is a signed, time-bounded claim set. Encoding and
//! signature verification are done by the `jsonwebtoken` crate behind two
//! trusted wrappers; the validity-window checks against the caller's
//! clock are verified here.

use jsonwebtoken::errors::ErrorKind;
use jsonwebtoken::Algorithm;
use jsonwebtoken::DecodingKey;
use jsonwebtoken::EncodingKey;
use jsonwebtoken::Header;
use jsonwebtoken::Validation;
use serde_json::Value;
use vstd::prelude::*;

verus! {

/// Fixed clock-skew allowance in seconds, applied symmetrically to the
/// not-before and expiry bounds when a token is validated.
pub const CLOCK_SKEW_LEEWAY_SECONDS: u64 = 5;

/// The claim set carried inside a signed bearer token: the subject (the
/// user's email address) and the issued-at, not-before and expiry times,
/// all in whole seconds since the Unix epoch.
#[derive(Debug, Clone)]
pub struct Claims {
    pub exp: u64,
    pub iat: u64,
    pub nbf: u64,
    pub sub: String,
}

/// Why decoding a bearer token failed. Callers outside the codec merge
/// all four causes into one opaque invalid-token condition, so that no
/// detail leaks across the trust boundary.
#[derive(Debug, Clone, Copy, PartialEq, Eq, Structural)]
pub enum DecodeError {
    Malformed,
    InvalidSignature,
    NotYetValid,
    Expired,
}

/// Why issuing a bearer token failed. Either cause is fatal to the
/// single request. With the symmetric scheme, signing itself cannot
/// fail, so only a clock failure is ever reported.
#[derive(Debug, Clone, Copy, PartialEq, Eq, Structural)]
pub enum IssueError {
    ClockFailure,
    SigningFailure,
}

/// The signed token that the HMAC-SHA512 scheme produces for the given
/// claims under the given key; a function of its arguments alone.
pub uninterp spec fn jwt_token_of(exp: u64, iat: u64, nbf: u64, sub: Seq<char>, key: Seq<char>) -> Seq<char>;

/// What structural parsing plus signature verification of a token under a
/// key yields: the four claims on success; `Err(true)` when the token is
/// well-formed but its signature does not match the key; `Err(false)`
/// when it is not a well-formed signed claim set. A function of its
/// arguments alone.
pub uninterp spec fn jwt_claims_of(token: Seq<char>, key: Seq<char>) -> Result<(u64, u64, u64, Seq<char>), bool>;

/// Relies on jsonwebtoken::encode with HS512: the produced token is a
/// deterministic function of the claims and the key, and
/// jsonwebtoken::decode accepts it under the same key, recovering exactly
/// these claims. HMAC signing of this fixed four-claim payload cannot
/// fail, so the call always returns a token. Nothing is claimed about
/// decoding under other keys: HMAC derives equal signing keys from some
/// distinct key strings (a short key and its zero-padded form, a long key
/// and its digest).
#[verifier::external_body]
fn jwt_encode_hs512(exp: u64, iat: u64, nbf: u64, sub: &str, key: &str) -> (r: Option<String>)
    ensures
        r is Some,
        r matches Some(t) ==> ({
            &&& t@ == jwt_token_of(exp, iat, nbf, sub@, key@)
            &&& jwt_claims_of(t@, key@) == Ok::<(u64, u64, u64, Seq<char>), bool>(
                (exp, iat, nbf, sub@),
            )
        }),
{
    let mut payload = serde_json::Map::new();
    payload.insert("exp".to_string(), Value::from(exp));
    payload.insert("iat".to_string(), Value::from(iat));
    payload.insert("nbf".to_string(), Value::from(nbf));
    payload.insert("sub".to_string(), Value::from(sub));
    let header = Header::new(Algorithm::HS512);
    let encoding_key = EncodingKey::from_secret(key.as_bytes());
    jsonwebtoken::encode(&header, &Value::Object(payload), &encoding_key).ok()
}

/// Relies on jsonwebtoken::decode with HS512: the outcome depends only on
/// the token text and the key. Time-based validation is switched off
/// here; the verified caller checks the validity window itself. A
/// well-formed token whose signature does not match gives `Err(true)`;
/// every other rejection, a missing or non-numeric claim included, gives
/// `Err(false)`.
#[verifier::external_body]
fn jwt_decode_hs512(token: &str, key: &str) -> (r: Result<(u64, u64, u64, String), bool>)
    ensures
        match r {
            Ok(c) => jwt_claims_of(token@, key@) == Ok::<(u64, u64, u64, Seq<char>), bool>(
                (c.0, c.1, c.2, c.3@),
            ),
            Err(e) => jwt_claims_of(token@, key@) == Err::<(u64, u64, u64, Seq<char>), bool>(e),
        },
{
    let mut validation = Validation::new(Algorithm::HS512);
    validation.validate_exp = false;
    let d = match jsonwebtoken::decode::<Value>(token, &DecodingKey::from_secret(key.as_bytes()), &validation) {
        Ok(data) => data.claims,
        Err(e) => return Err(matches!(e.kind(), ErrorKind::InvalidSignature)),
    };
    match (d.get("exp").and_then(Value::as_u64), d.get("iat").and_then(Value::as_u64), d.get("nbf").and_then(Value::as_u64), d.get("sub").and_then(Value::as_str)) {
        (Some(e), Some(i), Some(n), Some(s)) => Ok((e, i, n, s.to_string())),
        _ => Err(false),
    }
}

/// The exact outcome of decoding `token` under `key` at time `now`:
/// structural well-formedness and the signature first, then the
/// not-before bound, then the expiry bound, each time bound with the
/// fixed leeway.
pub open spec fn spec_decode(token: Seq<char>, key: Seq<char>, now: u64) -> Result<
    (u64, u64, u64, Seq<char>),
    DecodeError,
> {
    match jwt_claims_of(token, key) {
        Err(signature_checked) => Err(
            if signature_checked {
                DecodeError::InvalidSignature
            } else {
                DecodeError::Malformed
            },
        ),
        Ok(claims) => if claims.2 > now + CLOCK_SKEW_LEEWAY_SECONDS {
            Err(DecodeError::NotYetValid)
        } else if claims.0 + CLOCK_SKEW_LEEWAY_SECONDS < now {
            Err(DecodeError::Expired)
        } else {
            Ok(claims)
        },
    }
}

/// What decoding a well-signed token with these claims yields under the
/// signing key at verification time `now`: the claims themselves at every
/// `now` inside `[nbf - leeway, exp + leeway]`, and the matching
/// time-bound error outside it.
pub open spec fn round_trip_outcome(exp: u64, iat: u64, nbf: u64, sub: Seq<char>, now: u64) -> Result<
    (u64, u64, u64, Seq<char>),
    DecodeError,
> {
    if nbf > now + CLOCK_SKEW_LEEWAY_SECONDS {
        Err(DecodeError::NotYetValid)
    } else if exp + CLOCK_SKEW_LEEWAY_SECONDS < now {
        Err(DecodeError::Expired)
    } else {
        Ok((exp, iat, nbf, sub))
    }
}

/// Decode a bearer token under `key` and validate its time bounds against
/// the caller's clock reading `now`.
pub fn decode(token: &str, key: &str, now: u64) -> (r: Result<Claims, DecodeError>)
    ensures
        match r {
            Ok(c) => spec_decode(token@, key@, now) == Ok::<(u64, u64, u64, Seq<char>), DecodeError>(
                (c.exp, c.iat, c.nbf, c.sub@),
            ),
            Err(e) => spec_decode(token@, key@, now) == Err::<(u64, u64, u64, Seq<char>), DecodeError>(e),
        },
{
    match jwt_decode_hs512(token, key) {
        Err(signature_checked) => Err(
            if signature_checked {
                DecodeError::InvalidSignature
            } else {
                DecodeError::Malformed
            },
        ),
        Ok((exp, iat, nbf, sub)) => {
            if nbf > now && nbf - now > CLOCK_SKEW_LEEWAY_SECONDS {
                Err(DecodeError::NotYetValid)
            } else if exp < now && now - exp > CLOCK_SKEW_LEEWAY_SECONDS {
                Err(DecodeError::Expired)
            } else {
                Ok(Claims { exp, iat, nbf, sub })
            }
        },
    }
}

/// Encode and sign a claim set under the given key. Signing with the
/// symmetric scheme cannot fail, so a token is always produced.
///
/// The last condition is the codec's round-trip law: the produced token
/// decodes, under the same key, back to exactly the encoded claims at
/// every verification time inside the validity window and to the
/// matching time-bound error outside it.
pub fn encode(claims: &Claims, key: &str) -> (r: Result<String, IssueError>)
    ensures
        r is Ok,
        r matches Ok(t) ==> t@ == jwt_token_of(claims.exp, claims.iat, claims.nbf, claims.sub@, key@),
        r matches Ok(t) ==> forall|now: u64| #[trigger] spec_decode(t@, key@, now)
            == round_trip_outcome(claims.exp, claims.iat, claims.nbf, claims.sub@, now),
{
    match jwt_encode_hs512(claims.exp, claims.iat, claims.nbf, claims.sub.as_str(), key) {
        Some(t) => Ok(t),
        None => Err(IssueError::SigningFailure),
    }
}

/// Build the claim set for `subject` at issuance time `now` and sign it:
/// issued-at `now`, not-before `now + 1`, expiry `now + 1 + lifetime`.
/// Always succeeds.
pub fn issue(subject: &str, key: &str, lifetime_seconds: u64, now: u64) -> (r: Result<String, IssueError>)
    requires
        now + 1 + lifetime_seconds <= u64::MAX,
    ensures
        r is Ok,
        r matches Ok(t) ==> t@ == jwt_token_of(
            (now + 1 + lifetime_seconds) as u64,
            now,
            (now + 1) as u64,
            subject@,
            key@,
        ),
        r matches Ok(t) ==> forall|at: u64| #[trigger] spec_decode(t@, key@, at)
            == round_trip_outcome(
            (now + 1 + lifetime_seconds) as u64,
            now,
            (now + 1) as u64,
            subject@,
            at,
        ),
{
    let claims = Claims {
        exp: now + 1 + lifetime_seconds,
        iat: now,
        nbf: now + 1,
        sub: subject.to_owned(),
    };
    encode(&claims, key)
}

/// Relies on std::time::SystemTime::now, read out through duration_since
/// the Unix epoch: the current wall-clock time in whole seconds, or None
/// if the clock reads before the epoch. Nothing is promised of the value.
#[verifier::external_body]
fn current_unix_seconds() -> (r: Option<u64>) {
    std::time::SystemTime::now().duration_since(std::time::UNIX_EPOCH).ok().map(|d| d.as_secs())
}

/// Issue a token for `subject` at the current wall-clock time, signed
/// with `signature_psk`. `None` comes only of the environment: the clock
/// could not be read, or its reading is so large that the expiry would
/// not fit in 64 bits. A produced token carries the documented claim set
/// for some issuance time and obeys the codec's round-trip law.
pub fn get_token_for_user(subject: &String, signature_psk: &String, access_token_lifetime: u64) -> (r:
    Option<String>)
    ensures
        r matches Some(t) ==> exists|now: u64|
            now + 1 + access_token_lifetime <= u64::MAX && t@ == #[trigger] jwt_token_of(
                (now + 1 + access_token_lifetime) as u64,
                now,
                (now + 1) as u64,
                subject@,
                signature_psk@,
            ) && (forall|at: u64|
                #[trigger] spec_decode(t@, signature_psk@, at) == round_trip_outcome(
                    (now + 1 + access_token_lifetime) as u64,
                    now,
                    (now + 1) as u64,
                    subject@,
                    at,
                )),
{
    let issued: Result<String, IssueError> = match current_unix_seconds() {
        None => Err(IssueError::ClockFailure),
        Some(now) => {
            if access_token_lifetime > u64::MAX - 1 || now > u64::MAX - 1 - access_token_lifetime {
                Err(IssueError::ClockFailure)
            } else {
                issue(subject.as_str(), signature_psk.as_str(), access_token_lifetime, now)
            }
        },
    };
    match issued {
        Ok(t) => Some(t),
        Err(_) => None,
    }
}

} // verus!
