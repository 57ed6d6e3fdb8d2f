//! Error taxonomy of the authentication core.

use vstd::prelude::*;

verus! {

/// Failures of the token codec alone.
#[derive(Clone, Copy, Debug, PartialEq, Eq, Structural)]
pub enum CodecError {
    /// The string is a well-formed token but its signature does not match
    /// the verifying key.
    InvalidSignature,
    /// The string does not decode into a complete claim set.
    Malformed,
}

/// Failures of the access guard.
#[derive(Clone, Copy, Debug, PartialEq, Eq, Structural)]
pub enum GuardError {
    /// Bad signature or malformed claims.
    Unauthenticated,
    /// Valid signature but the expiry lies in the past.
    Expired,
    /// Valid, unexpired token whose role does not satisfy the operation's
    /// role requirement.
    Forbidden,
}

/// Failures of the credential store.
#[derive(Clone, Copy, Debug, PartialEq, Eq, Structural)]
pub enum StoreError {
    /// A unique field (username or email) is already taken.
    Duplicate,
    /// No fresh identifier can be assigned.
    Full,
}

/// Failures surfaced by the session-level operations.
#[derive(Clone, Copy, Debug, PartialEq, Eq, Structural)]
pub enum AuthError {
    /// Unknown email or wrong password at login; the two are never
    /// distinguished.
    InvalidCredentials,
    /// Bad signature, malformed claims, a superseded refresh token, or an
    /// unknown user id embedded in the claims.
    InvalidToken,
    /// Valid signature but the expiry lies in the past.
    Expired,
    /// Valid, unexpired token whose role does not meet the requirement.
    Forbidden,
    /// Internal failure while hashing a password or signing a token.
    HashError,
    /// A role code outside the ones registration accepts.
    InvalidRole,
    /// Propagated from the credential store.
    Store(StoreError),
}

impl GuardError {
    /// How a guard failure surfaces at the session level.
    pub fn to_auth_error(self) -> (r: AuthError)
        ensures
            r == self.as_auth_error(),
    {
        match self {
            GuardError::Unauthenticated => AuthError::InvalidToken,
            GuardError::Expired => AuthError::Expired,
            GuardError::Forbidden => AuthError::Forbidden,
        }
    }

    /// The session-level error that each guard failure maps to.
    pub open spec fn as_auth_error(self) -> AuthError {
        match self {
            GuardError::Unauthenticated => AuthError::InvalidToken,
            GuardError::Expired => AuthError::Expired,
            GuardError::Forbidden => AuthError::Forbidden,
        }
    }
}

} // verus!
