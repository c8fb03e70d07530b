use vstd::prelude::*;

verus! {

/// Why a presented cookie value was rejected. Callers treat every variant as
/// "not logged in"; the variants exist so the rejection step stays auditable.
#[derive(Clone, Copy, Debug, PartialEq, Eq, Structural)]
pub enum SessionError {
    /// The value does not have the shape `payload.tag` with well-formed segments.
    Malformed,
    /// The tag does not match the recomputed tag over the payload.
    BadSignature,
    /// Structure and tag are good, but the embedded expiry has elapsed.
    Expired,
}

/// Outcome of a failed user-store operation.
#[derive(Clone, Copy, Debug, PartialEq, Eq, Structural)]
pub enum StoreError {
    /// Registration found the username already claimed.
    UsernameTaken,
    /// Login failed; deliberately the same whether the username was unknown
    /// or the password was wrong.
    InvalidCredentials,
    /// An internal failure (e.g. the hashing primitive gave no record);
    /// never used to report a credential problem.
    Other,
}

/// Why a signing key could not be constructed.
#[derive(Clone, Copy, Debug, PartialEq, Eq, Structural)]
pub enum KeyError {
    /// The secret is shorter than the minimum the process accepts.
    TooShort,
}

} // verus!
