//! Sessions: the record that binds a session token to an account and to the
//! fingerprint of the client that obtained it.
use vstd::prelude::*;
use crate::account::AccountRecord;
use crate::crypto::{is_hyphenated_v7, new_session_token, sha256_hex, sha256_hex_of};

verus! {

/// A session record. The same value is handed to the client, serialised, as
/// its session cookie.
pub struct AuthorizedUser {
    /// Fingerprint of the client that logged in.
    pub client_signature: String,
    /// The session token.
    pub session_id: String,
    /// The account the session belongs to.
    pub account_id: i32,
}

/// A session record as the specifications see it.
pub struct SessionRow {
    pub client_signature: Seq<char>,
    pub session_id: Seq<char>,
    pub account_id: int,
}

impl View for AuthorizedUser {
    type V = SessionRow;

    open spec fn view(&self) -> SessionRow {
        SessionRow {
            client_signature: self.client_signature@,
            session_id: self.session_id@,
            account_id: self.account_id as int,
        }
    }
}

/// The bytes of all parts, one after the other.
pub open spec fn concat_all(parts: Seq<Seq<u8>>) -> Seq<u8>
    decreases parts.len(),
{
    if parts.len() == 0 {
        Seq::empty()
    } else {
        concat_all(parts.drop_last()) + parts.last()
    }
}

/// The contents of each byte vector.
pub open spec fn byte_parts(values: Seq<Vec<u8>>) -> Seq<Seq<u8>> {
    values.map_values(|v: Vec<u8>| v@)
}

/// The fingerprint of a request: the SHA-256 digest, in hex, of the values
/// of its headers joined in the order given.
pub open spec fn fingerprint_of(header_values: Seq<Vec<u8>>) -> Seq<char> {
    sha256_hex_of(concat_all(byte_parts(header_values)))
}

/// Computes the fingerprint of a request from the values of its headers.
pub fn client_fingerprint(header_values: &Vec<Vec<u8>>) -> (r: String)
    ensures
        r@ == fingerprint_of(header_values@),
        r@.len() == 64,
{
    let ghost parts = byte_parts(header_values@);
    let mut bytes: Vec<u8> = Vec::new();
    let mut i: usize = 0;
    while i < header_values.len()
        invariant
            i <= header_values.len(),
            parts == byte_parts(header_values@),
            bytes@ == concat_all(parts.take(i as int)),
        decreases header_values.len() - i,
    {
        let part = &header_values[i];
        let mut j: usize = 0;
        while j < part.len()
            invariant
                i < header_values.len(),
                part == header_values@[i as int],
                j <= part.len(),
                bytes@ == concat_all(parts.take(i as int)) + part@.take(j as int),
            decreases part.len() - j,
        {
            bytes.push(part[j]);
            proof {
                assert(part@.take(j as int + 1) == part@.take(j as int).push(part@[j as int]));
            }
            j += 1;
        }
        proof {
            assert(part@.take(j as int) == part@);
            assert(parts.take(i as int + 1).drop_last() == parts.take(i as int));
            assert(parts.take(i as int + 1).last() == part@);
        }
        i += 1;
    }
    proof {
        assert(parts.take(i as int) == parts);
    }
    sha256_hex(&bytes)
}

impl AuthorizedUser {
    /// A new session for `account`, bound to the client fingerprint
    /// `client_sig`, under a fresh time-ordered token: a version-7 UUID in
    /// hyphenated form.
    pub fn from_account(account: &AccountRecord, client_sig: String) -> (r: AuthorizedUser)
        ensures
            r.client_signature == client_sig,
            r.account_id == account.id,
            is_hyphenated_v7(r.session_id@),
    {
        let session_id = new_session_token();
        AuthorizedUser { client_signature: client_sig, session_id, account_id: account.id }
    }

    /// A copy of this record.
    pub fn duplicate(&self) -> (r: AuthorizedUser)
        ensures
            r@ == self@,
    {
        AuthorizedUser {
            client_signature: self.client_signature.clone(),
            session_id: self.session_id.clone(),
            account_id: self.account_id,
        }
    }
}

} // verus!
