use vstd::prelude::*;

verus! {

/// The closed set of failures that the authentication services report.
#[derive(PartialEq, Eq, Structural, Clone, Copy, Debug)]
pub enum AuthError {
    /// A request field was empty or malformed.
    InvalidInput,
    /// The username (or a freshly drawn account id) is already taken.
    Conflict,
    /// The password hashing or signing primitive failed internally.
    HashingFailure,
    /// Durable storage could not be reached.
    StorageUnavailable,
    /// The token is malformed or its signature does not verify.
    InvalidToken,
    /// The token's signature verifies but its lifetime has run out.
    Expired,
}

impl AuthError {
    /// Whether the error is the caller's to fix, as opposed to an internal failure.
    pub fn is_client_error(&self) -> (r: bool)
        ensures
            r == !(*self == AuthError::HashingFailure || *self == AuthError::StorageUnavailable),
    {
        match self {
            AuthError::HashingFailure => false,
            AuthError::StorageUnavailable => false,
            _ => true,
        }
    }
}

} // verus!
