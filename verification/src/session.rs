//! Session engine: issues and verifies signed, time-limited session tokens
//! bound to a username.
//!
//! A token carries a claim `{sub, exp}` signed with a pre-shared symmetric
//! key (HMAC-SHA256). Verification is stateless: validity is decided by the
//! signature and the expiration alone, so a token cannot be revoked before
//! it expires. Signature checking is done by the token library; the
//! expiration is compared against the clock here, so that an invalid
//! signature and an expired claim stay distinguishable.

use vstd::prelude::*;

verus! {

use crate::errors::AppError;
use crate::errors::SessionError;

/// Seconds a freshly issued session lives: 24 hours.
pub const SESSION_LIFETIME_SECONDS: u64 = 86400;

/// The signing key shared by issuance and verification.
pub open spec fn spec_jwt_secret() -> Seq<char> {
    "fumo"@
}

/// The signing key as an executable value.
pub fn jwt_secret() -> (r: &'static str)
    ensures
        r@ == spec_jwt_secret(),
{
    "fumo"
}

/// A session claim: the subject it is bound to and the absolute expiration
/// timestamp, in seconds since the Unix epoch.
#[derive(Debug, PartialEq, Eq)]
pub struct Claims {
    /// The username this session belongs to.
    pub sub: String,
    /// Seconds since the Unix epoch at which the session expires.
    pub exp: usize,
}

/// The token `jsonwebtoken::encode` produces for a claim `{sub, exp}` under
/// a key: a pure function of the three, since HMAC signing and the claim
/// serialization are deterministic.
pub uninterp spec fn token_of(key: Seq<char>, sub: Seq<char>, exp: int) -> Seq<char>;

/// What `jsonwebtoken::decode` recovers from a token under a key, with the
/// expiration check disabled: `None` when the token is malformed or its
/// signature does not match, otherwise the embedded subject and expiration.
/// A pure function of key and token alone.
pub uninterp spec fn decoded_claims(key: Seq<char>, token: Seq<char>) -> Option<(Seq<char>, int)>;

/// Relies on `jsonwebtoken::encode` with HS256 and the default header: the
/// result is determined by key, subject and expiration, and decoding it with
/// the same key recovers exactly the claim that was signed.
#[verifier::external_body]
fn jwt_encode(key: &str, sub: &str, exp: u64) -> (r: Result<String, ()>)
    ensures
        r matches Ok(t) ==> t@ == token_of(key@, sub@, exp as int) && decoded_claims(
            key@,
            t@,
        ) == Some((sub@, exp as int)),
{
    let mut claims = serde_json::Map::new();
    claims.insert("sub".to_string(), serde_json::Value::String(sub.to_string()));
    claims.insert("exp".to_string(), serde_json::Value::from(exp));
    jsonwebtoken::encode(
        &jsonwebtoken::Header::default(),
        &serde_json::Value::Object(claims),
        &jsonwebtoken::EncodingKey::from_secret(key.as_bytes()),
    ).map_err(|_| (()))
}

/// Relies on `jsonwebtoken::decode` with HS256, signature check only (the
/// expiration claim is read but not validated here): a pure function of key
/// and token.
#[verifier::external_body]
fn jwt_decode(key: &str, token: &str) -> (r: Option<(String, u64)>)
    ensures
        match r {
            Some((sub, exp)) => decoded_claims(key@, token@) == Some((sub@, exp as int)),
            None => decoded_claims(key@, token@) is None,
        },
{
    let mut validation = jsonwebtoken::Validation::new(jsonwebtoken::Algorithm::HS256);
    validation.validate_exp = false;
    validation.required_spec_claims = std::collections::HashSet::new();
    let key = jsonwebtoken::DecodingKey::from_secret(key.as_bytes());
    let data = jsonwebtoken::decode::<serde_json::Value>(token, &key, &validation).ok()?;
    let sub = data.claims.get("sub")?.as_str()?.to_string();
    let exp = data.claims.get("exp")?.as_u64()?;
    Some((sub, exp))
}

/// Relies on chrono's `Utc::now`: the current time in seconds since the
/// Unix epoch. Nothing can be promised of the clock's value.
#[verifier::external_body]
fn now_timestamp() -> (r: i64) {
    chrono::Utc::now().timestamp()
}

/// The expiration a session issued at time `now` carries: 24 hours later,
/// with a clock before the epoch treated as the epoch and the result capped
/// at the largest representable timestamp.
pub open spec fn session_expiry(now: int) -> int {
    let base = if now <= 0 {
        0
    } else {
        now
    };
    if base + SESSION_LIFETIME_SECONDS <= usize::MAX {
        base + SESSION_LIFETIME_SECONDS
    } else {
        usize::MAX as int
    }
}

/// How verification at time `now` judges a decoded claim: no claim means
/// the signature is bad; an expiration beyond the representable range is
/// also rejected as invalid; otherwise the claim is good exactly when it
/// expires after `now`.
pub open spec fn session_outcome(parsed: Option<(Seq<char>, int)>, now: int) -> Result<
    (Seq<char>, int),
    SessionError,
> {
    match parsed {
        None => Err(SessionError::InvalidSignature),
        Some((sub, exp)) => if exp > usize::MAX {
            Err(SessionError::InvalidSignature)
        } else if now >= exp {
            Err(SessionError::Expired)
        } else {
            Ok((sub, exp))
        },
    }
}

/// Issues a session token for `sub` as of time `now`: the claim's subject
/// is `sub` and its expiration is `session_expiry(now)`, and decoding the
/// token recovers exactly that claim.
pub fn generate_session_at(sub: &str, now: i64) -> (r: Result<String, AppError>)
    ensures
        r matches Ok(t) ==> t@ == token_of(spec_jwt_secret(), sub@, session_expiry(now as int))
            && decoded_claims(spec_jwt_secret(), t@) == Some(
            (sub@, session_expiry(now as int)),
        ),
        r matches Err(e) ==> e == AppError::Internal,
{
    let base: u64 = if now <= 0 {
        0
    } else {
        now as u64
    };
    let cap: u64 = usize::MAX as u64;
    let exp: u64 = if base + SESSION_LIFETIME_SECONDS <= cap {
        base + SESSION_LIFETIME_SECONDS
    } else {
        cap
    };
    assert(exp as int == session_expiry(now as int));
    match jwt_encode(jwt_secret(), sub, exp) {
        Ok(t) => Ok(t),
        Err(()) => Err(AppError::Internal),
    }
}

/// Issues a session token for `sub` as of the current clock. The token
/// decodes back to a claim whose subject is `sub` and whose expiration lies
/// a full session lifetime past some clock reading.
pub fn generate_session(sub: &str) -> (r: Result<String, AppError>)
    ensures
        r matches Ok(t) ==> exists|e: int|
            SESSION_LIFETIME_SECONDS <= e <= usize::MAX && t@ == token_of(
                spec_jwt_secret(),
                sub@,
                e,
            ) && decoded_claims(spec_jwt_secret(), t@) == Some((sub@, e)),
        r matches Err(e) ==> e == AppError::Internal,
{
    let now = now_timestamp();
    let r = generate_session_at(sub, now);
    proof {
        if r is Ok {
            assert(SESSION_LIFETIME_SECONDS <= session_expiry(now as int) <= usize::MAX);
        }
    }
    r
}

/// Verifies a token as of time `now`, exactly as `session_outcome` judges
/// the decoded claim.
pub fn verify_session_at(token: &str, now: i64) -> (r: Result<Claims, SessionError>)
    ensures
        match r {
            Ok(c) => session_outcome(decoded_claims(spec_jwt_secret(), token@), now as int)
                == Ok::<(Seq<char>, int), SessionError>((c.sub@, c.exp as int)),
            Err(e) => session_outcome(decoded_claims(spec_jwt_secret(), token@), now as int)
                == Err::<(Seq<char>, int), SessionError>(e),
        },
{
    match jwt_decode(jwt_secret(), token) {
        None => Err(SessionError::InvalidSignature),
        Some((sub, exp64)) => {
            if exp64 > usize::MAX as u64 {
                Err(SessionError::InvalidSignature)
            } else {
                let exp: usize = exp64 as usize;
                let expired = if now < 0 {
                    false
                } else {
                    (now as u64) >= exp64
                };
                if expired {
                    Err(SessionError::Expired)
                } else {
                    Ok(Claims { sub, exp })
                }
            }
        },
    }
}

/// Verifies a token against the current clock. A returned claim always
/// carries exactly the subject and expiration that were signed into the
/// token; which side of its expiration the clock fell on is not fixed here,
/// but a bad-signature verdict can only come from a token that does not
/// decode to a representable claim.
pub fn verify_session(token: &str) -> (r: Result<Claims, SessionError>)
    ensures
        r matches Ok(c) ==> decoded_claims(spec_jwt_secret(), token@) == Some(
            (c.sub@, c.exp as int),
        ),
        r == Err::<Claims, SessionError>(SessionError::Expired) ==> decoded_claims(
            spec_jwt_secret(),
            token@,
        ) is Some,
        decoded_claims(spec_jwt_secret(), token@) is None ==> r == Err::<Claims, SessionError>(
            SessionError::InvalidSignature,
        ),
        r == Err::<Claims, SessionError>(SessionError::InvalidSignature) ==> decoded_claims(
            spec_jwt_secret(),
            token@,
        ) is None || (decoded_claims(spec_jwt_secret(), token@) matches Some(p) && p.1
            > usize::MAX),
{
    let now = now_timestamp();
    verify_session_at(token, now)
}

/// Session round trip: a token that decodes to a claim `(sub, e)` is judged
/// valid at any time before `e`, and yields exactly that subject and
/// expiration.
pub proof fn lemma_session_round_trip(key: Seq<char>, token: Seq<char>, sub: Seq<char>, e: int, now: int)
    requires
        decoded_claims(key, token) == Some((sub, e)),
        0 <= now < e,
        e <= usize::MAX,
    ensures
        session_outcome(decoded_claims(key, token), now) == Ok::<(Seq<char>, int), SessionError>(
            (sub, e),
        ),
{
}

} // verus!
