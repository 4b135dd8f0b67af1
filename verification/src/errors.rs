//! The error taxonomy shared by every operation of the core.

use vstd::prelude::*;

verus! {

/// Typed failure returned to the resolver layer.
///
/// `Unauthenticated`: no valid claims are present on the request.
/// `Unauthorized`: valid claims are present but carry the wrong role.
/// `CodeInvalid`: a redeemed code is missing, expired or already used.
/// `NotFound`: an identity row is missing (including a stale identity).
/// `CorruptRecord`: a stored value failed to decode; a bug, not user error.
/// `StoreUnavailable`: a transient infrastructure failure.
#[derive(Clone, Copy, Debug, PartialEq, Eq, Structural)]
pub enum AuthError {
    Unauthenticated,
    Unauthorized,
    CodeInvalid,
    NotFound,
    CorruptRecord,
    StoreUnavailable,
}

impl AuthError {
    /// A short human-readable description of the failure.
    pub fn message(&self) -> (r: &'static str)
        ensures
            r@ == self.spec_message(),
    {
        match self {
            AuthError::Unauthenticated => "Unauthenticated",
            AuthError::Unauthorized => "Unauthorized",
            AuthError::CodeInvalid => "Code is no longer valid",
            AuthError::NotFound => "Not found",
            AuthError::CorruptRecord => "Corrupt record",
            AuthError::StoreUnavailable => "Store unavailable",
        }
    }

    pub open spec fn spec_message(&self) -> Seq<char> {
        match self {
            AuthError::Unauthenticated => "Unauthenticated"@,
            AuthError::Unauthorized => "Unauthorized"@,
            AuthError::CodeInvalid => "Code is no longer valid"@,
            AuthError::NotFound => "Not found"@,
            AuthError::CorruptRecord => "Corrupt record"@,
            AuthError::StoreUnavailable => "Store unavailable"@,
        }
    }
}

} // verus!
