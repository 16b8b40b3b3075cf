//! The credential store: the accounts relation and the sessions relation,
//! with the reads and writes that the flows make on them.
use vstd::prelude::*;
use crate::account::{Account, AccountRecord, AccountRow};
use crate::date::CalendarDate;
use crate::error::AuthError;
use crate::password::{HASHABLE_LEN, is_hash_of};
use crate::session::{AuthorizedUser, SessionRow};

verus! {

/// The largest account id that the store hands out.
pub const MAX_ACCOUNT_ID: i32 = 2147483647;

/// The two relations as the specifications see them, and the id that the
/// next account will get.
pub struct StoreModel {
    pub accounts: Seq<AccountRow>,
    pub sessions: Seq<SessionRow>,
    pub next_id: int,
}

/// Whether some account has the username `u`.
pub open spec fn has_username(accounts: Seq<AccountRow>, u: Seq<char>) -> bool {
    exists|i: int| 0 <= i < accounts.len() && #[trigger] accounts[i].username == u
}

/// Whether row `i` is the first, in the order of insertion, with username `u`.
pub open spec fn is_first_with_username(accounts: Seq<AccountRow>, u: Seq<char>, i: int) -> bool {
    &&& 0 <= i < accounts.len()
    &&& accounts[i].username == u
    &&& forall|j: int| 0 <= j < i ==> #[trigger] accounts[j].username != u
}

/// The rows of `accounts` with username `u`, in their order.
pub open spec fn rows_with_username(accounts: Seq<AccountRow>, u: Seq<char>) -> Seq<AccountRow> {
    accounts.filter(|a: AccountRow| a.username == u)
}

/// The views of a sequence of account records.
pub open spec fn account_rows(records: Seq<AccountRecord>) -> Seq<AccountRow> {
    records.map_values(|a: AccountRecord| a@)
}

/// The views of a sequence of session records.
pub open spec fn session_rows(records: Seq<AuthorizedUser>) -> Seq<SessionRow> {
    records.map_values(|s: AuthorizedUser| s@)
}

/// Whether some account has the id `id`.
pub open spec fn has_id(accounts: Seq<AccountRow>, id: int) -> bool {
    exists|i: int| 0 <= i < accounts.len() && #[trigger] accounts[i].id == id
}

/// Whether some session has the token `sid`.
pub open spec fn has_session(sessions: Seq<SessionRow>, sid: Seq<char>) -> bool {
    exists|i: int| 0 <= i < sessions.len() && #[trigger] sessions[i].session_id == sid
}

impl StoreModel {
    /// Ids are positive, below `next_id` and increase with insertion;
    /// session tokens are a key.
    pub open spec fn wf(self) -> bool {
        &&& 1 <= self.next_id <= MAX_ACCOUNT_ID as int + 1
        &&& forall|i: int|
            0 <= i < self.accounts.len() ==> 1 <= #[trigger] self.accounts[i].id < self.next_id
                && self.accounts[i].created_at.wf()
        &&& forall|i: int, j: int|
            0 <= i < j < self.accounts.len() ==> self.accounts[i].id < self.accounts[j].id
        &&& forall|i: int, j: int|
            0 <= i < j < self.sessions.len() ==> self.sessions[i].session_id
                != self.sessions[j].session_id
    }

    /// The store after one more account row, which gets the next id.
    pub open spec fn with_account(self, u: Seq<char>, passw: Seq<char>, d: CalendarDate) -> StoreModel {
        StoreModel {
            accounts: self.accounts.push(
                AccountRow { username: u, id: self.next_id, passw, created_at: d },
            ),
            next_id: self.next_id + 1,
            ..self
        }
    }

    /// The store after one more session row.
    pub open spec fn with_session(self, s: SessionRow) -> StoreModel {
        StoreModel { sessions: self.sessions.push(s), ..self }
    }
}

/// What `insert_account` may do with credentials `u`, `p` on store `s`,
/// returning `r` and leaving `t`: hashing can fail only for a password of
/// `HASHABLE_LEN` characters or more, and the insert only where no id is
/// left; otherwise the row is added with a hash of `p`.
pub open spec fn insert_account_outcome(
    s: StoreModel,
    u: Seq<char>,
    p: Seq<char>,
    d: CalendarDate,
    r: Result<usize, AuthError>,
    t: StoreModel,
) -> bool {
    ||| p.len() >= HASHABLE_LEN && r == Err::<usize, AuthError>(AuthError::Hashing) && t == s
    ||| s.next_id > MAX_ACCOUNT_ID && r == Err::<usize, AuthError>(AuthError::Storage) && t == s
    ||| s.next_id <= MAX_ACCOUNT_ID && r == Ok::<usize, AuthError>(1) && exists|h: Seq<char>|
        is_hash_of(p, h) && t == #[trigger] s.with_account(u, h, d)
}

/// Accounts and sessions, kept in the order of insertion.
pub struct CredentialStore {
    accounts: Vec<AccountRecord>,
    sessions: Vec<AuthorizedUser>,
    next_id: i32,
    full: bool,
}

impl View for CredentialStore {
    type V = StoreModel;

    closed spec fn view(&self) -> StoreModel {
        StoreModel {
            accounts: account_rows(self.accounts@),
            sessions: session_rows(self.sessions@),
            next_id: if self.full {
                MAX_ACCOUNT_ID as int + 1
            } else {
                self.next_id as int
            },
        }
    }
}

impl CredentialStore {
    pub closed spec fn wf(&self) -> bool {
        &&& self@.wf()
        &&& self.full ==> self.next_id == MAX_ACCOUNT_ID
    }

    /// A well-formed store has a well-formed view.
    pub proof fn lemma_view_wf(&self)
        requires
            self.wf(),
        ensures
            self@.wf(),
    {
    }

    /// An empty store; the first account gets id 1.
    pub fn new() -> (r: CredentialStore)
        ensures
            r.wf(),
            r@.accounts.len() == 0,
            r@.sessions.len() == 0,
            r@.next_id == 1,
    {
        let r = CredentialStore { accounts: Vec::new(), sessions: Vec::new(), next_id: 1, full: false };
        assert(r@.accounts =~= Seq::<AccountRow>::empty());
        assert(r@.sessions =~= Seq::<SessionRow>::empty());
        r
    }

    /// The number of account rows.
    pub fn account_count(&self) -> (r: usize)
        ensures
            r == self@.accounts.len(),
    {
        self.accounts.len()
    }

    /// The number of session rows.
    pub fn session_count(&self) -> (r: usize)
        ensures
            r == self@.sessions.len(),
    {
        self.sessions.len()
    }

    /// The account row at position `i` in the order of insertion.
    pub fn account_at(&self, i: usize) -> (r: &AccountRecord)
        requires
            i < self@.accounts.len(),
        ensures
            r@ == self@.accounts[i as int],
    {
        &self.accounts[i]
    }

    /// The session row at position `i` in the order of insertion.
    pub fn session_at(&self, i: usize) -> (r: &AuthorizedUser)
        requires
            i < self@.sessions.len(),
        ensures
            r@ == self@.sessions[i as int],
    {
        &self.sessions[i]
    }

    /// The first account, in the order of insertion, with this username.
    pub fn find_account_by_username(&self, username: &String) -> (r: Option<AccountRecord>)
        ensures
            r is None <==> !has_username(self@.accounts, username@),
            r matches Some(a) ==> exists|i: int|
                is_first_with_username(self@.accounts, username@, i) && a@ == #[trigger] self@.accounts[i],
    {
        let ghost rows = self@.accounts;
        let mut i: usize = 0;
        while i < self.accounts.len()
            invariant
                i <= self.accounts.len(),
                rows == self@.accounts,
                forall|j: int| 0 <= j < i ==> #[trigger] rows[j].username != username@,
            decreases self.accounts.len() - i,
        {
            if self.accounts[i].username == *username {
                assert(is_first_with_username(rows, username@, i as int));
                return Some(self.accounts[i].duplicate());
            }
            i += 1;
        }
        None
    }

    /// All accounts with this username, in the order of insertion.
    pub fn find_accounts_by_username(&self, username: &String) -> (r: Vec<AccountRecord>)
        ensures
            account_rows(r@) == rows_with_username(self@.accounts, username@),
    {
        let ghost rows = self@.accounts;
        let mut out: Vec<AccountRecord> = Vec::new();
        let mut i: usize = 0;
        while i < self.accounts.len()
            invariant
                i <= self.accounts.len(),
                rows == self@.accounts,
                account_rows(out@) == rows_with_username(rows.take(i as int), username@),
            decreases self.accounts.len() - i,
        {
            let ghost prev = account_rows(out@);
            assert(rows[i as int] == self.accounts@[i as int]@);
            if self.accounts[i].username == *username {
                out.push(self.accounts[i].duplicate());
                assert(account_rows(out@) =~= prev.push(rows[i as int]));
            } else {
                assert(account_rows(out@) =~= prev);
            }
            proof {
                reveal(Seq::filter);
                let t = rows.take(i as int + 1);
                assert(t.drop_last() =~= rows.take(i as int));
                assert(t.last() == rows[i as int]);
            }
            i += 1;
        }
        proof {
            assert(rows.take(i as int) == rows);
        }
        out
    }

    /// The account with this id.
    pub fn find_account_by_id(&self, id: i32) -> (r: Result<AccountRecord, AuthError>)
        ensures
            r is Ok <==> has_id(self@.accounts, id as int),
            r matches Ok(a) ==> exists|i: int|
                0 <= i < self@.accounts.len() && self@.accounts[i].id == id && a@ == #[trigger] self@.accounts[i],
            r matches Err(e) ==> e == AuthError::NotFound,
    {
        let ghost rows = self@.accounts;
        let mut i: usize = 0;
        while i < self.accounts.len()
            invariant
                i <= self.accounts.len(),
                rows == self@.accounts,
                forall|j: int| 0 <= j < i ==> #[trigger] rows[j].id != id,
            decreases self.accounts.len() - i,
        {
            if self.accounts[i].id == id {
                assert(rows[i as int].id == id);
                return Ok(self.accounts[i].duplicate());
            }
            i += 1;
        }
        Err(AuthError::NotFound)
    }

    /// Appends an account row whose password column is already hashed; the
    /// row gets the next id.
    pub fn insert_storable(&mut self, storable: &Account, created_at: CalendarDate) -> (r: Result<usize, AuthError>)
        requires
            old(self).wf(),
            created_at.wf(),
        ensures
            final(self).wf(),
            old(self)@.next_id > MAX_ACCOUNT_ID ==> r == Err::<usize, AuthError>(AuthError::Storage)
                && final(self)@ == old(self)@,
            old(self)@.next_id <= MAX_ACCOUNT_ID ==> r == Ok::<usize, AuthError>(1)
                && final(self)@ == old(self)@.with_account(storable.username@, storable.passw@, created_at),
    {
        if self.full {
            return Err(AuthError::Storage);
        }
        let ghost before = self@;
        let row = AccountRecord {
            username: storable.username.clone(),
            id: self.next_id,
            passw: storable.passw.clone(),
            created_at,
        };
        self.accounts.push(row);
        if self.next_id == MAX_ACCOUNT_ID {
            self.full = true;
        } else {
            self.next_id = self.next_id + 1;
        }
        proof {
            assert(self@.accounts =~= before.accounts.push(row@));
            assert(self@ == before.with_account(storable.username@, storable.passw@, created_at));
        }
        Ok(1)
    }

    /// Hashes the password of `account` and appends the row; the row gets
    /// the next id.
    pub fn insert_account(&mut self, account: &Account, created_at: CalendarDate) -> (r: Result<usize, AuthError>)
        requires
            old(self).wf(),
            created_at.wf(),
        ensures
            final(self).wf(),
            insert_account_outcome(old(self)@, account.username@, account.passw@, created_at, r, final(self)@),
    {
        let storable = account.into_storable()?;
        let r = self.insert_storable(&storable, created_at);
        proof {
            if r is Ok {
                assert(self@ == old(self)@.with_account(account.username@, storable.passw@, created_at));
            }
        }
        r
    }

    /// Appends a session row. The token is the key of the relation: a token
    /// that is already there is refused.
    pub fn insert_session(&mut self, session: &AuthorizedUser) -> (r: Result<usize, AuthError>)
        requires
            old(self).wf(),
        ensures
            final(self).wf(),
            has_session(old(self)@.sessions, session.session_id@) ==> r == Err::<usize, AuthError>(
                AuthError::Storage,
            ) && final(self)@ == old(self)@,
            !has_session(old(self)@.sessions, session.session_id@) ==> r == Ok::<usize, AuthError>(1)
                && final(self)@ == old(self)@.with_session(session@),
    {
        if self.find_session_by_id(&session.session_id).is_some() {
            return Err(AuthError::Storage);
        }
        let ghost before = self@;
        let row = session.duplicate();
        self.sessions.push(row);
        proof {
            assert(self@.sessions =~= before.sessions.push(session@));
            assert(self@ == before.with_session(session@));
        }
        Ok(1)
    }

    /// The session with this token.
    pub fn find_session_by_id(&self, session_id: &String) -> (r: Option<AuthorizedUser>)
        requires
            self.wf(),
        ensures
            r is None <==> !has_session(self@.sessions, session_id@),
            r matches Some(s) ==> exists|i: int|
                0 <= i < self@.sessions.len() && self@.sessions[i].session_id == session_id@ && s@
                    == #[trigger] self@.sessions[i],
    {
        let ghost rows = self@.sessions;
        let mut i: usize = 0;
        while i < self.sessions.len()
            invariant
                i <= self.sessions.len(),
                rows == self@.sessions,
                forall|j: int| 0 <= j < i ==> #[trigger] rows[j].session_id != session_id@,
            decreases self.sessions.len() - i,
        {
            if self.sessions[i].session_id == *session_id {
                assert(rows[i as int].session_id == session_id@);
                return Some(self.sessions[i].duplicate());
            }
            i += 1;
        }
        None
    }
}

} // verus!
