//! The account flows: registration, login and lookup of public account data.
use vstd::prelude::*;
use crate::account::{Account, AccountLookup, AccountRecord, AccountRow};
use crate::crypto::{argon2_verifies, is_default_argon2_phc};
use crate::date::CalendarDate;
use crate::error::AuthError;
use crate::password::{is_hash_of, verify_password};
use crate::store::{
    CredentialStore, StoreModel, account_rows, has_id, has_username, insert_account_outcome,
    is_first_with_username, rows_with_username,
};

verus! {

/// What registering `u` with password `p` may do on store `s`, returning `r`
/// and leaving `t`: a taken username is a conflict and changes nothing;
/// otherwise the account is inserted as `insert_account` does.
pub open spec fn register_outcome(
    s: StoreModel,
    u: Seq<char>,
    p: Seq<char>,
    d: CalendarDate,
    r: Result<usize, AuthError>,
    t: StoreModel,
) -> bool {
    if has_username(s.accounts, u) {
        r == Err::<usize, AuthError>(AuthError::Conflict) && t == s
    } else {
        insert_account_outcome(s, u, p, d, r, t)
    }
}

/// Whether candidate `k` is the first whose stored hash accepts `p`.
pub open spec fn is_first_verified(candidates: Seq<AccountRow>, p: Seq<char>, k: int) -> bool {
    &&& 0 <= k < candidates.len()
    &&& argon2_verifies(p, candidates[k].passw)
    &&& forall|j: int| 0 <= j < k ==> !argon2_verifies(p, #[trigger] candidates[j].passw)
}

/// Whether some candidate's stored hash accepts `p`.
pub open spec fn some_verified(candidates: Seq<AccountRow>, p: Seq<char>) -> bool {
    exists|k: int| 0 <= k < candidates.len() && argon2_verifies(p, #[trigger] candidates[k].passw)
}

/// Registers the account that `request` describes, dated `created_at`,
/// unless an account with its username exists. On success, the number of
/// rows written.
pub fn handle_account_register_request(
    request: &Account,
    store: &mut CredentialStore,
    created_at: CalendarDate,
) -> (r: Result<usize, AuthError>)
    requires
        old(store).wf(),
        created_at.wf(),
    ensures
        final(store).wf(),
        register_outcome(old(store)@, request.username@, request.passw@, created_at, r, final(store)@),
{
    if store.find_account_by_username(&request.username).is_some() {
        Err(AuthError::Conflict)
    } else {
        store.insert_account(request, created_at)
    }
}

/// Logs in: of the accounts with the requested username, in the order of
/// insertion, the first whose stored hash accepts the password.
pub fn handle_account_login_request(request: &Account, store: &CredentialStore) -> (r: Result<
    AccountRecord,
    AuthError,
>)
    ensures
        r is Ok <==> some_verified(
            rows_with_username(store@.accounts, request.username@),
            request.passw@,
        ),
        r matches Ok(a) ==> exists|k: int|
            is_first_verified(rows_with_username(store@.accounts, request.username@), request.passw@, k)
                && a@ == #[trigger] rows_with_username(store@.accounts, request.username@)[k],
        r matches Err(e) ==> e == AuthError::NotFound,
        !has_username(store@.accounts, request.username@) ==> r == Err::<AccountRecord, AuthError>(
            AuthError::NotFound,
        ),
{
    let candidates = store.find_accounts_by_username(&request.username);
    let ghost rows = account_rows(candidates@);
    proof {
        lemma_no_candidates_without_username(store@.accounts, request.username@);
    }
    let mut i: usize = 0;
    while i < candidates.len()
        invariant
            i <= candidates.len(),
            rows == account_rows(candidates@),
            rows == rows_with_username(store@.accounts, request.username@),
            !has_username(store@.accounts, request.username@) ==> rows.len() == 0,
            forall|j: int| 0 <= j < i ==> !argon2_verifies(request.passw@, #[trigger] rows[j].passw),
        decreases candidates.len() - i,
    {
        assert(rows[i as int] == candidates@[i as int]@);
        if verify_password(request.passw.as_str(), candidates[i].passw.as_str()) {
            assert(is_first_verified(rows, request.passw@, i as int));
            return Ok(candidates[i].duplicate());
        }
        i += 1;
    }
    Err(AuthError::NotFound)
}

/// Without an account of username `u` there is no login candidate.
pub proof fn lemma_no_candidates_without_username(accounts: Seq<AccountRow>, u: Seq<char>)
    ensures
        !has_username(accounts, u) ==> rows_with_username(accounts, u).len() == 0,
    decreases accounts.len(),
{
    reveal(Seq::filter);
    if accounts.len() > 0 && !has_username(accounts, u) {
        let rest = accounts.drop_last();
        assert(!has_username(rest, u)) by {
            if has_username(rest, u) {
                let i = choose|i: int| 0 <= i < rest.len() && #[trigger] rest[i].username == u;
                assert(accounts[i].username == u);
            }
        }
        lemma_no_candidates_without_username(rest, u);
        assert(accounts[accounts.len() - 1].username != u);
    }
}

/// The public data of the account with this id.
pub fn lookup_account_from_id(id: i32, store: &CredentialStore) -> (r: Result<AccountLookup, AuthError>)
    ensures
        r is Ok <==> has_id(store@.accounts, id as int),
        r matches Ok(a) ==> exists|i: int|
            0 <= i < store@.accounts.len() && store@.accounts[i].id == id && a@
                == #[trigger] store@.accounts[i].public(),
        r matches Err(e) ==> e == AuthError::NotFound,
{
    let record = store.find_account_by_id(id)?;
    Ok(record.to_public())
}

/// Registering a username a second time, after a first registration of it
/// succeeded, fails with a conflict and leaves the store as it was.
pub proof fn lemma_second_registration_conflicts(
    s0: StoreModel,
    s1: StoreModel,
    s2: StoreModel,
    u: Seq<char>,
    p1: Seq<char>,
    p2: Seq<char>,
    d1: CalendarDate,
    d2: CalendarDate,
    r1: Result<usize, AuthError>,
    r2: Result<usize, AuthError>,
)
    requires
        register_outcome(s0, u, p1, d1, r1, s1),
        r1 is Ok,
        register_outcome(s1, u, p2, d2, r2, s2),
    ensures
        r2 == Err::<usize, AuthError>(AuthError::Conflict),
        s2 == s1,
        s2.accounts.len() == s1.accounts.len(),
{
    let h = choose|h: Seq<char>| is_hash_of(p1, h) && s1 == #[trigger] s0.with_account(u, h, d1);
    let last = s0.accounts.len() as int;
    assert(s1.accounts[last].username == u);
}

/// After `insert_account` of `u` and `p` succeeds on a store without that
/// username, the first account found under `u` is the new row: its username
/// is `u`, and its stored password differs from `p` unless `p` itself has
/// the shape of an Argon2id PHC string.
pub proof fn lemma_insert_then_find(
    s0: StoreModel,
    s1: StoreModel,
    u: Seq<char>,
    p: Seq<char>,
    d: CalendarDate,
    r: Result<usize, AuthError>,
)
    requires
        insert_account_outcome(s0, u, p, d, r, s1),
        r is Ok,
        !has_username(s0.accounts, u),
    ensures
        has_username(s1.accounts, u),
        forall|i: int| #[trigger]
            is_first_with_username(s1.accounts, u, i) ==> s1.accounts[i].username == u
                && s1.accounts[i].id == s0.next_id && s1.accounts[i].created_at == d
                && is_hash_of(p, s1.accounts[i].passw) && (!is_default_argon2_phc(p)
                ==> s1.accounts[i].passw != p),
{
    let h = choose|h: Seq<char>| is_hash_of(p, h) && s1 == #[trigger] s0.with_account(u, h, d);
    let last = s0.accounts.len() as int;
    assert(s1.accounts[last].username == u);
    assert forall|i: int| #[trigger] is_first_with_username(s1.accounts, u, i) implies i == last by {
        if i < last {
            assert(s1.accounts[i] == s0.accounts[i]);
        }
    }
}

} // verus!
