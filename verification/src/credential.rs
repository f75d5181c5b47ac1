//! Credential engine: password hashing with a memory-hard KDF (Argon2id)
//! and verification of a secret against a stored, self-describing hash
//! string.
//!
//! The encoded hash string carries the algorithm identifier, version, cost
//! parameters and salt alongside the digest, so verification recomputes the
//! digest from the stored parameters alone and the cost profile can evolve
//! without invalidating old hashes.

use vstd::prelude::*;

use argon2::password_hash::PasswordHasher;
use argon2::password_hash::PasswordVerifier;
use argon2::password_hash::phc::PasswordHash;

verus! {

use crate::errors::AppError;

/// Memory cost of newly produced hashes, in KiB.
pub const HASH_MEM_COST_KIB: u32 = 62500;

/// Iteration count of newly produced hashes.
pub const HASH_ITERATIONS: u32 = 1;

/// Degree of parallelism of newly produced hashes.
pub const HASH_PARALLELISM: u32 = 1;

/// Digest length of newly produced hashes, in bytes.
pub const HASH_OUTPUT_LEN: usize = 32;

/// Whether `argon2`'s `PasswordHash::new` accepts the encoded hash string:
/// a pure function of the string alone.
pub uninterp spec fn argon2_parses(encoded: Seq<char>) -> bool;

/// Whether recomputing the digest from the parameters and salt embedded in
/// the encoded hash string reproduces the embedded digest for this secret:
/// a pure function of the string and the secret alone.
pub uninterp spec fn argon2_matches(encoded: Seq<char>, secret: Seq<char>) -> bool;

/// How one verification attempt against a stored hash string came out.
#[derive(Clone, Copy, Debug, PartialEq, Eq, Structural)]
pub(crate) enum RawVerdict {
    /// The string parses and the recomputed digest matches.
    Match,
    /// The string parses and the recomputed digest does not match.
    Mismatch,
    /// The string is not a well-formed PHC hash string.
    Malformed,
    /// Recomputation itself failed (parameters outside the algorithm's
    /// range, or resource exhaustion); nothing is claimed about this case.
    Fault,
}

/// Relies on `argon2::Argon2::hash_password`: a freshly produced PHC hash
/// string parses back, and verifying it against the same secret recomputes
/// the same digest from the embedded salt and parameters.
#[verifier::external_body]
fn argon2_hash_with(
    secret: &str,
    m_cost_kib: u32,
    t_cost: u32,
    p_cost: u32,
    out_len: usize,
) -> (r: Result<String, ()>)
    ensures
        r matches Ok(h) ==> argon2_parses(h@) && argon2_matches(h@, secret@),
{
    let params = argon2::Params::new(m_cost_kib, t_cost, p_cost, Some(out_len)).map_err(|_| (()))?;
    let kdf = argon2::Argon2::new(argon2::Algorithm::Argon2id, argon2::Version::V0x13, params);
    match kdf.hash_password(secret.as_bytes()) {
        Ok(h) => Ok(h.to_string()),
        Err(_) => Err(()),
    }
}

/// Relies on `argon2`'s `PasswordHash::new` and `verify_password`: parsing
/// and digest recomputation are pure functions of the stored string and the
/// secret; a digest mismatch is reported as `PasswordInvalid`, distinct from
/// parse failures, and a recomputation fault can only arise once the string
/// has parsed.
#[verifier::external_body]
fn argon2_check(encoded: &str, secret: &str) -> (r: RawVerdict)
    ensures
        r is Match ==> argon2_parses(encoded@) && argon2_matches(encoded@, secret@),
        r is Mismatch ==> argon2_parses(encoded@) && !argon2_matches(encoded@, secret@),
        r is Malformed ==> !argon2_parses(encoded@),
        r is Fault ==> argon2_parses(encoded@),
{
    let parsed = match PasswordHash::new(encoded) {
        Ok(p) => p,
        Err(_) => return RawVerdict::Malformed,
    };
    match argon2::Argon2::default().verify_password(secret.as_bytes(), &parsed) {
        Ok(()) => RawVerdict::Match,
        Err(argon2::password_hash::Error::PasswordInvalid) => RawVerdict::Mismatch,
        Err(_) => RawVerdict::Fault,
    }
}

/// What `verify` reports when the hash string's fate is decided by its
/// content alone: a parse failure is an integrity fault, anything else is
/// the digest comparison.
pub open spec fn verify_outcome(encoded: Seq<char>, secret: Seq<char>) -> Result<bool, AppError> {
    if argon2_parses(encoded) {
        Ok(argon2_matches(encoded, secret))
    } else {
        Err(AppError::CorruptHash)
    }
}

/// Hashes a secret with the engine's cost profile, returning the encoded
/// hash string. The digest is salted with a fresh random salt, so two calls
/// on the same secret differ; every result verifies against the secret it
/// was produced from.
pub fn hash(secret: &str) -> (r: Result<String, AppError>)
    ensures
        r matches Ok(h) ==> argon2_parses(h@) && argon2_matches(h@, secret@),
        r matches Err(e) ==> e == AppError::Internal,
{
    match argon2_hash_with(
        secret,
        HASH_MEM_COST_KIB,
        HASH_ITERATIONS,
        HASH_PARALLELISM,
        HASH_OUTPUT_LEN,
    ) {
        Ok(h) => Ok(h),
        Err(()) => Err(AppError::Internal),
    }
}

/// Verifies a secret against a stored hash string. A well-formed string
/// yields the digest comparison; a malformed one is the integrity fault
/// `CorruptHash`; `Internal` covers a failure of the recomputation itself.
pub fn verify(encoded: &str, secret: &str) -> (r: Result<bool, AppError>)
    ensures
        r matches Ok(b) ==> verify_outcome(encoded@, secret@) == Ok::<bool, AppError>(b),
        r == Err::<bool, AppError>(AppError::CorruptHash) ==> verify_outcome(encoded@, secret@)
            == Err::<bool, AppError>(AppError::CorruptHash),
        r == Err::<bool, AppError>(AppError::Internal) ==> argon2_parses(encoded@),
        r matches Err(e) ==> e == AppError::CorruptHash || e == AppError::Internal,
{
    match argon2_check(encoded, secret) {
        RawVerdict::Match => Ok(true),
        RawVerdict::Mismatch => Ok(false),
        RawVerdict::Malformed => Err(AppError::CorruptHash),
        RawVerdict::Fault => Err(AppError::Internal),
    }
}

/// Hash round trip, positive direction: a hash string the engine produced
/// for a secret verifies as a match against that same secret. The negative
/// direction (a different secret fails) rests on the collision resistance
/// of the KDF and is exercised by tests, not stated here.
pub proof fn lemma_hash_verify_round_trip(h: Seq<char>, s: Seq<char>)
    requires
        argon2_parses(h),
        argon2_matches(h, s),
    ensures
        verify_outcome(h, s) == Ok::<bool, AppError>(true),
{
}

} // verus!
