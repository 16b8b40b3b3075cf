//! Accounts: the credentials a client sends, the full row the store keeps,
//! and the public projection of that row.
use vstd::prelude::*;
use crate::date::CalendarDate;
use crate::error::AuthError;
use crate::password::{HASHABLE_LEN, hash_password, is_hash_of};

verus! {

/// Credentials as a client sends them: the password is in plain text and is
/// only hashed on the server.
pub struct Account {
    pub username: String,
    pub passw: String,
}

/// An account row with every column, the password hash included. It stays
/// on the server.
pub struct AccountRecord {
    pub username: String,
    pub id: i32,
    pub passw: String,
    pub created_at: CalendarDate,
}

/// The public projection of an account row: no password hash.
pub struct AccountLookup {
    pub username: String,
    pub id: i32,
    pub created_at: CalendarDate,
}

/// An account row as the specifications see it.
pub struct AccountRow {
    pub username: Seq<char>,
    pub id: int,
    pub passw: Seq<char>,
    pub created_at: CalendarDate,
}

/// The public projection as the specifications see it.
pub struct PublicAccount {
    pub username: Seq<char>,
    pub id: int,
    pub created_at: CalendarDate,
}

impl AccountRow {
    pub open spec fn public(self) -> PublicAccount {
        PublicAccount { username: self.username, id: self.id, created_at: self.created_at }
    }
}

impl View for AccountRecord {
    type V = AccountRow;

    open spec fn view(&self) -> AccountRow {
        AccountRow {
            username: self.username@,
            id: self.id as int,
            passw: self.passw@,
            created_at: self.created_at,
        }
    }
}

impl View for AccountLookup {
    type V = PublicAccount;

    open spec fn view(&self) -> PublicAccount {
        PublicAccount { username: self.username@, id: self.id as int, created_at: self.created_at }
    }
}

impl Account {
    pub fn new(username: String, passw: String) -> (r: Account)
        ensures
            r.username == username,
            r.passw == passw,
    {
        Account { username, passw }
    }

    /// The same credentials with the password replaced by its Argon2 hash,
    /// ready to be stored.
    pub fn into_storable(&self) -> (r: Result<Account, AuthError>)
        ensures
            self.passw@.len() < HASHABLE_LEN ==> r is Ok,
            r matches Ok(a) ==> a.username@ == self.username@ && is_hash_of(self.passw@, a.passw@),
            r matches Err(e) ==> e == AuthError::Hashing,
    {
        let passw = hash_password(self.passw.as_str())?;
        Ok(Account { username: self.username.clone(), passw })
    }
}

impl AccountRecord {
    /// A copy of this row.
    pub fn duplicate(&self) -> (r: AccountRecord)
        ensures
            r@ == self@,
    {
        AccountRecord {
            username: self.username.clone(),
            id: self.id,
            passw: self.passw.clone(),
            created_at: self.created_at,
        }
    }

    /// The public projection of this row.
    pub fn to_public(&self) -> (r: AccountLookup)
        ensures
            r@ == self@.public(),
    {
        AccountLookup {
            username: self.username.clone(),
            id: self.id,
            created_at: self.created_at,
        }
    }
}

} // verus!
