//! Claims sets signed as HS256 JSON web tokens.
use vstd::prelude::*;
use std::collections::BTreeMap;
use hmac::{Hmac, Mac};
use jwt::{SignWithKey, VerifyWithKey};
use sha2::Sha256;
use crate::error::AuthError;

verus! {

/// The compact HS256 token that signs `claims` with key `secret`.
pub uninterp spec fn hs256_token_of(claims: Map<Seq<char>, Seq<char>>, secret: Seq<u8>) -> Seq<char>;

/// The claims that `token` carries, where its HS256 signature under `secret`
/// checks out.
pub uninterp spec fn hs256_claims_of(token: Seq<char>, secret: Seq<u8>) -> Map<Seq<char>, Seq<char>>;

#[verifier::external_type_specification]
#[verifier::external_body]
pub struct ExJwtError(jwt::Error);

/// Relies on `SignWithKey::sign_with_key` of `jwt` with an HMAC-SHA256 key
/// made by `Mac::new_from_slice` from `secret`. HMAC takes a key of any
/// length, the header names the key's own algorithm, and a map of strings
/// always serialises, so signing succeeds.
#[verifier::external_body]
fn jwt_sign(claims: BTreeMap<String, String>, secret: &[u8]) -> (r: Result<String, jwt::Error>)
    ensures
        r is Ok,
        r matches Ok(t) ==> t@ == hs256_token_of(claims.deep_view(), secret@),
{
    let key: Hmac<Sha256> = Hmac::new_from_slice(secret).map_err(jwt::Error::RustCryptoMacKeyLength)?;
    claims.sign_with_key(&key)
}

/// Relies on `VerifyWithKey::verify_with_key` of `jwt` with an HMAC-SHA256
/// key made by `Mac::new_from_slice` from `secret`: a token that
/// `sign_with_key` made under the same key parses, its signature checks out,
/// and its claims decode to the map that was signed.
#[verifier::external_body]
fn jwt_verify(token: &str, secret: &[u8]) -> (r: Result<BTreeMap<String, String>, jwt::Error>)
    ensures
        r matches Ok(c) ==> c.deep_view() == hs256_claims_of(token@, secret@),
        r is Ok || forall|claims: Map<Seq<char>, Seq<char>>| #[trigger]
            hs256_token_of(claims, secret@) != token@,
        r matches Ok(c) ==> forall|claims: Map<Seq<char>, Seq<char>>| #[trigger]
            hs256_token_of(claims, secret@) == token@ ==> c.deep_view() == claims,
{
    let key: Hmac<Sha256> = Hmac::new_from_slice(secret).map_err(jwt::Error::RustCryptoMacKeyLength)?;
    token.verify_with_key(&key)
}

/// The claims of `encrypted_string`, whose signature must check out under
/// `secret`.
pub fn get_claims_from_str(encrypted_string: &str, secret: &[u8]) -> (r: Result<
    BTreeMap<String, String>,
    AuthError,
>)
    ensures
        r matches Ok(c) ==> c.deep_view() == hs256_claims_of(encrypted_string@, secret@),
        r matches Err(e) ==> e == AuthError::InvalidToken,
        forall|claims: Map<Seq<char>, Seq<char>>| #[trigger]
            hs256_token_of(claims, secret@) == encrypted_string@ ==> (r matches Ok(c)
                && c.deep_view() == claims),
{
    match jwt_verify(encrypted_string, secret) {
        Ok(c) => Ok(c),
        Err(_) => Err(AuthError::InvalidToken),
    }
}

/// Signs the claims `cookies` with `secret`.
pub fn create_claims(cookies: BTreeMap<String, String>, secret: &[u8]) -> (r: Result<String, AuthError>)
    ensures
        r matches Ok(t) && t@ == hs256_token_of(cookies.deep_view(), secret@),
{
    match jwt_sign(cookies, secret) {
        Ok(t) => Ok(t),
        Err(_) => Err(AuthError::InvalidToken),
    }
}

/// Reading the claims back from a token that `create_claims` made, with the
/// same secret, gives the claims that were signed.
pub proof fn lemma_claims_round_trip(
    claims: Map<Seq<char>, Seq<char>>,
    secret: Seq<u8>,
    token: Seq<char>,
    read: Result<BTreeMap<String, String>, AuthError>,
)
    requires
        token == hs256_token_of(claims, secret),
        forall|c: Map<Seq<char>, Seq<char>>| #[trigger]
            hs256_token_of(c, secret) == token ==> (read matches Ok(m) && m.deep_view() == c),
    ensures
        read matches Ok(m) && m.deep_view() == claims,
{
}

} // verus!
