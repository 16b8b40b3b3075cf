//! Password hashing with Argon2 and a fresh random salt per call.
use vstd::prelude::*;
use crate::crypto::{argon2_hash, argon2_verifies, argon2_verify, is_default_argon2_phc};
use crate::error::AuthError;

verus! {

/// Passwords shorter than this, in characters, always hash.
pub const HASHABLE_LEN: usize = 0x4000_0000;

/// What holds of every hash that `hash_password` hands out for `password`:
/// a PHC string of default Argon2id, against which the password verifies.
pub open spec fn is_hash_of(password: Seq<char>, hash: Seq<char>) -> bool {
    &&& is_default_argon2_phc(hash)
    &&& argon2_verifies(password, hash)
}

/// Hashes `password` with the default Argon2 settings and a fresh salt.
pub fn hash_password(password: &str) -> (r: Result<String, AuthError>)
    ensures
        password@.len() < HASHABLE_LEN ==> r is Ok,
        r matches Ok(h) ==> is_hash_of(password@, h@),
        r matches Err(e) ==> e == AuthError::Hashing,
{
    match argon2_hash(password) {
        Ok(h) => Ok(h),
        Err(_) => Err(AuthError::Hashing),
    }
}

/// Whether `password` verifies against the stored PHC string `hash`.
pub fn verify_password(password: &str, hash: &str) -> (r: bool)
    ensures
        r == argon2_verifies(password@, hash@),
{
    argon2_verify(password, hash)
}

/// A password verifies against any hash that `hash_password` gave for it.
pub proof fn lemma_hash_then_verify(password: Seq<char>, hash: Seq<char>)
    requires
        is_hash_of(password, hash),
    ensures
        argon2_verifies(password, hash),
{
}

/// A hash that `hash_password` gave never equals a password that does not
/// itself have the shape of such a hash.
pub proof fn lemma_hash_differs_from_password(password: Seq<char>, hash: Seq<char>)
    requires
        is_hash_of(password, hash),
        !is_default_argon2_phc(password),
    ensures
        hash != password,
{
}

} // verus!
