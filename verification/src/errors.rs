use vstd::prelude::*;

verus! {

/// Failures surfaced by the library's use cases.
///
/// Domain errors (`NotFound`, `Conflict`, `Unauthorized`) are mapped by the
/// caller to specific response codes; the remaining variants are internal
/// faults that the caller collapses into a generic internal-error response.
#[derive(Clone, Copy, Debug, PartialEq, Eq, Structural)]
pub enum AppError {
    /// A lookup missed: no record under the requested key.
    NotFound,
    /// The username is already taken.
    Conflict,
    /// The supplied credentials do not match the stored ones.
    Unauthorized,
    /// The declarative schema source is missing a required attribute or
    /// cannot be evaluated.
    Schema,
    /// A store transaction could not be opened or committed, even after the
    /// bounded retries.
    Store,
    /// A stored record does not parse back into its expected shape.
    Serialization,
    /// A stored password hash string is malformed; an integrity fault, not a
    /// credential mismatch.
    CorruptHash,
    /// Hashing or token signing failed inside the underlying primitive.
    Internal,
}

/// The two ways a session token can fail verification. Callers collapse both
/// into a single unauthorized outcome, but they stay distinguishable here for
/// diagnostics.
#[derive(Clone, Copy, Debug, PartialEq, Eq, Structural)]
pub enum SessionError {
    /// The token is malformed or its signature does not match the key.
    InvalidSignature,
    /// The token's expiration timestamp is not in the future.
    Expired,
}

} // verus!
