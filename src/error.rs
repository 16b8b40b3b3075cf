//! The conditions under which a store operation or a flow fails.
use vstd::prelude::*;

verus! {

#[derive(Clone, Copy, Debug, PartialEq, Eq, Structural)]
pub enum AuthError {
    /// No account or session answers the request.
    NotFound,
    /// An account with the same username already exists.
    Conflict,
    /// The store refused to write: a key is taken or no id is left.
    Storage,
    /// The password could not be hashed.
    Hashing,
    /// A session cookie names no session of this client.
    InvalidSession,
    /// A token could not be signed, or its signature does not check out.
    InvalidToken,
}

impl AuthError {
    /// A short description of the condition.
    pub fn message(&self) -> (r: &'static str)
        ensures
            r@ == match self {
                AuthError::NotFound => "Profile not found"@,
                AuthError::Conflict => "User already exists."@,
                AuthError::Storage => "Storage failure"@,
                AuthError::Hashing => "Password hashing failed"@,
                AuthError::InvalidSession => "Invalid session"@,
                AuthError::InvalidToken => "Invalid token"@,
            },
    {
        match self {
            AuthError::NotFound => "Profile not found",
            AuthError::Conflict => "User already exists.",
            AuthError::Storage => "Storage failure",
            AuthError::Hashing => "Password hashing failed",
            AuthError::InvalidSession => "Invalid session",
            AuthError::InvalidToken => "Invalid token",
        }
    }
}

} // verus!
