//! The outside hashing and token primitives that the flows rely on.
use vstd::prelude::*;
use argon2::password_hash::{rand_core::OsRng, SaltString};
use argon2::{Argon2, PasswordHash, PasswordHasher, PasswordVerifier};

verus! {

/// Whether Argon2 accepts `password` against the PHC string `phc`: the
/// string parses, and hashing the password with the algorithm, version,
/// parameters and salt that it names gives the output that it holds.
pub uninterp spec fn argon2_verifies(password: Seq<char>, phc: Seq<char>) -> bool;

/// The lower-case hexadecimal SHA-256 digest of `data`.
pub uninterp spec fn sha256_hex_of(data: Seq<u8>) -> Seq<char>;

#[verifier::external_type_specification]
#[verifier::external_body]
pub struct ExPasswordHashError(argon2::password_hash::Error);

/// The start of every PHC string that `Argon2::default()` writes: the
/// algorithm, the version and the default parameters.
pub open spec fn argon2_default_prefix() -> Seq<char> {
    seq![
        '$', 'a', 'r', 'g', 'o', 'n', '2', 'i', 'd', '$', 'v', '=', '1', '9', '$', 'm', '=', '1',
        '9', '4', '5', '6', ',', 't', '=', '2', ',', 'p', '=', '1', '$',
    ]
}

/// Whether `s` has the shape of a PHC string of `Argon2::default()` over a
/// 16-byte salt: the prefix, 22 characters of salt, `$`, and 43 characters
/// of output, 97 in all.
pub open spec fn is_default_argon2_phc(s: Seq<char>) -> bool {
    &&& s.len() == 97
    &&& s.take(31) == argon2_default_prefix()
    &&& s[53] == '$'
}

/// Relies on `SaltString::generate` with the operating system's random
/// source, for the salt that the call needs, and on
/// `PasswordHasher::hash_password` of `Argon2::default()`, serialised by the
/// `Display` of `PasswordHash`. With the default parameters and a 16-byte
/// salt, hashing fails only for a password over `u32::MAX` bytes; a
/// password under 2^30 characters has fewer than 2^32 bytes.
#[verifier::external_body]
pub(crate) fn argon2_hash(password: &str) -> (r: Result<String, argon2::password_hash::Error>)
    ensures
        password@.len() < 0x4000_0000 ==> r is Ok,
        r matches Ok(h) ==> {
            &&& is_default_argon2_phc(h@)
            &&& argon2_verifies(password@, h@)
        },
{
    let salt = SaltString::generate(&mut OsRng);
    Argon2::default().hash_password(password.as_bytes(), &salt).map(|h| h.to_string())
}

/// Relies on `PasswordHash::new` and `PasswordVerifier::verify_password` of
/// `Argon2::default()`: a string that does not parse is refused.
#[verifier::external_body]
pub(crate) fn argon2_verify(password: &str, phc: &str) -> (r: bool)
    ensures
        r == argon2_verifies(password@, phc@),
{
    match PasswordHash::new(phc) {
        Ok(parsed) => Argon2::default().verify_password(password.as_bytes(), &parsed).is_ok(),
        Err(_) => false,
    }
}

/// Relies on `sha256::digest`: the hex encoding of the 32-byte digest.
#[verifier::external_body]
pub(crate) fn sha256_hex(data: &Vec<u8>) -> (r: String)
    ensures
        r@ == sha256_hex_of(data@),
        r@.len() == 64,
{
    sha256::digest(data)
}

/// Whether `c` is a lower-case hexadecimal digit.
pub open spec fn is_lower_hex(c: char) -> bool {
    ('0' <= c && c <= '9') || ('a' <= c && c <= 'f')
}

/// Whether `s` is a version-7 UUID in hyphenated lower-case form: 36
/// characters, hyphens at 8, 13, 18 and 23, the version digit `7` at 14,
/// and hexadecimal digits elsewhere.
pub open spec fn is_hyphenated_v7(s: Seq<char>) -> bool {
    &&& s.len() == 36
    &&& s[8] == '-' && s[13] == '-' && s[18] == '-' && s[23] == '-'
    &&& s[14] == '7'
    &&& forall|i: int|
        0 <= i < 36 && i != 8 && i != 13 && i != 18 && i != 23 ==> is_lower_hex(#[trigger] s[i])
}

/// Relies on `uuid::Uuid::now_v7` and the hyphenated lower-case form that
/// its `Display` writes: a time-ordered version-7 identifier.
#[verifier::external_body]
pub(crate) fn new_session_token() -> (r: String)
    ensures
        is_hyphenated_v7(r@),
{
    uuid::Uuid::now_v7().to_string()
}

} // verus!
