//! The session flows: recording a login as a session, and accepting a
//! session cookie only from the client that obtained it.
use vstd::prelude::*;
use crate::account::{Account, AccountLookup, AccountRecord, AccountRow};
use crate::auth::{
    handle_account_login_request, is_first_verified, lookup_account_from_id, some_verified,
};
use crate::crypto::is_hyphenated_v7;
use crate::error::AuthError;
use crate::session::{AuthorizedUser, SessionRow, client_fingerprint, fingerprint_of};
use crate::store::{CredentialStore, StoreModel, has_id, has_session, rows_with_username};
use vstd::string::StringExecFns;

verus! {

/// Whether some session has token `sid` and client signature `sig`.
pub open spec fn session_matches(sessions: Seq<SessionRow>, sid: Seq<char>, sig: Seq<char>) -> bool {
    exists|i: int|
        0 <= i < sessions.len() && #[trigger] sessions[i].session_id == sid
            && sessions[i].client_signature == sig
}

/// What recording session `u` may do on store `s`, returning `r` and
/// leaving `t`: a session with the same token and signature is kept as it
/// is; a token taken by another signature is refused; otherwise the session
/// is added.
pub open spec fn record_session_outcome(
    s: StoreModel,
    u: SessionRow,
    r: Result<AuthorizedUser, AuthError>,
    t: StoreModel,
) -> bool {
    if session_matches(s.sessions, u.session_id, u.client_signature) {
        r is Ok && r->Ok_0@ == u && t == s
    } else if has_session(s.sessions, u.session_id) {
        r == Err::<AuthorizedUser, AuthError>(AuthError::Storage) && t == s
    } else {
        r is Ok && r->Ok_0@ == u && t == s.with_session(u)
    }
}

/// Writes `authorized_user` to the sessions relation.
pub fn record_authenticated_account(
    authorized_user: &AuthorizedUser,
    store: &mut CredentialStore,
) -> (r: Result<usize, AuthError>)
    requires
        old(store).wf(),
    ensures
        final(store).wf(),
        has_session(old(store)@.sessions, authorized_user.session_id@) ==> r == Err::<
            usize,
            AuthError,
        >(AuthError::Storage) && final(store)@ == old(store)@,
        !has_session(old(store)@.sessions, authorized_user.session_id@) ==> r == Ok::<
            usize,
            AuthError,
        >(1) && final(store)@ == old(store)@.with_session(authorized_user@),
{
    store.insert_session(authorized_user)
}

/// The stored session with the token and the client signature of
/// `authorized_user`, if there is one.
pub fn check_authenticated_account(store: &CredentialStore, authorized_user: &AuthorizedUser) -> (r:
    Option<AuthorizedUser>)
    requires
        store.wf(),
    ensures
        r is Some <==> session_matches(
            store@.sessions,
            authorized_user.session_id@,
            authorized_user.client_signature@,
        ),
        r matches Some(s) ==> s@.session_id == authorized_user.session_id@
            && s@.client_signature == authorized_user.client_signature@
            && store@.sessions.contains(s@),
{
    validate_session(store, &authorized_user.session_id, &authorized_user.client_signature)
}

/// The session under token `session_id`, where it was established by the
/// client whose fingerprint is `fingerprint`.
pub fn validate_session(store: &CredentialStore, session_id: &String, fingerprint: &String) -> (r:
    Option<AuthorizedUser>)
    requires
        store.wf(),
    ensures
        r is Some <==> session_matches(store@.sessions, session_id@, fingerprint@),
        r matches Some(s) ==> s@.session_id == session_id@ && s@.client_signature == fingerprint@
            && store@.sessions.contains(s@),
{
    match store.find_session_by_id(session_id) {
        Some(found) => {
            if found.client_signature == *fingerprint {
                Some(found)
            } else {
                proof {
                    store.lemma_view_wf();
                    lemma_token_is_key(store@, session_id@, fingerprint@);
                }
                None
            }
        },
        None => None,
    }
}

/// Session tokens are a key: at most one session row has a given token.
pub proof fn lemma_token_is_key(s: StoreModel, sid: Seq<char>, sig: Seq<char>)
    requires
        s.wf(),
    ensures
        forall|i: int|
            0 <= i < s.sessions.len() && #[trigger] s.sessions[i].session_id == sid ==> (
            session_matches(s.sessions, sid, sig) <==> s.sessions[i].client_signature == sig),
{
    assert forall|i: int|
        0 <= i < s.sessions.len() && #[trigger] s.sessions[i].session_id == sid implies (
        session_matches(s.sessions, sid, sig) <==> s.sessions[i].client_signature == sig) by {
        if session_matches(s.sessions, sid, sig) {
            let j = choose|j: int|
                0 <= j < s.sessions.len() && #[trigger] s.sessions[j].session_id == sid
                    && s.sessions[j].client_signature == sig;
            if i < j {
                assert(s.sessions[i].session_id != s.sessions[j].session_id);
            } else if j < i {
                assert(s.sessions[j].session_id != s.sessions[i].session_id);
            }
        }
    }
}

/// Records `authorized_user` as a session unless the same session is there
/// already; hands it back as the value for the client's cookie.
pub fn record_session(store: &mut CredentialStore, authorized_user: AuthorizedUser) -> (r: Result<
    AuthorizedUser,
    AuthError,
>)
    requires
        old(store).wf(),
    ensures
        final(store).wf(),
        record_session_outcome(old(store)@, authorized_user@, r, final(store)@),
{
    if check_authenticated_account(store, &authorized_user).is_none() {
        record_authenticated_account(&authorized_user, store)?;
    }
    Ok(authorized_user)
}

/// Opens a session for `account`, bound to the client fingerprint
/// `client_sig`, under a fresh token.
pub fn establish_session(store: &mut CredentialStore, account: &AccountRecord, client_sig: String) -> (r:
    Result<AuthorizedUser, AuthError>)
    requires
        old(store).wf(),
    ensures
        final(store).wf(),
        exists|u: SessionRow|
            #![trigger record_session_outcome(old(store)@, u, r, final(store)@)]
            u.client_signature == client_sig@ && u.account_id == account.id && is_hyphenated_v7(u.session_id)
                && record_session_outcome(old(store)@, u, r, final(store)@),
{
    let authorized_user = AuthorizedUser::from_account(account, client_sig);
    let ghost u = authorized_user@;
    let r = record_session(store, authorized_user);
    assert(record_session_outcome(old(store)@, u, r, store@));
    r
}

/// Whether `r` is what looking up the account of session row `row` gives:
/// its public data where an account has its account id, else not found.
pub open spec fn account_of_session(
    accounts: Seq<AccountRow>,
    row: SessionRow,
    r: Result<AccountLookup, AuthError>,
) -> bool {
    &&& r is Ok <==> has_id(accounts, row.account_id)
    &&& r matches Ok(a) ==> exists|j: int|
        0 <= j < accounts.len() && accounts[j].id == row.account_id && a@
            == #[trigger] accounts[j].public()
    &&& r matches Err(e) ==> e == AuthError::NotFound
}

/// The public data of the account whose session is under token
/// `session_id`, where the session was established by the client whose
/// fingerprint is `fingerprint`.
pub fn account_for_session(store: &CredentialStore, session_id: &String, fingerprint: &String) -> (r:
    Result<AccountLookup, AuthError>)
    requires
        store.wf(),
    ensures
        !session_matches(store@.sessions, session_id@, fingerprint@) ==> r == Err::<
            AccountLookup,
            AuthError,
        >(AuthError::InvalidSession),
        session_matches(store@.sessions, session_id@, fingerprint@) ==> exists|i: int|
            0 <= i < store@.sessions.len() && store@.sessions[i].session_id == session_id@
                && store@.sessions[i].client_signature == fingerprint@ && account_of_session(
                store@.accounts,
                #[trigger] store@.sessions[i],
                r,
            ),
{
    match validate_session(store, session_id, fingerprint) {
        Some(session) => {
            let ghost i = choose|i: int| 0 <= i < store@.sessions.len() && store@.sessions[i] == session@;
            let r = lookup_account_from_id(session.account_id, store);
            assert(account_of_session(store@.accounts, store@.sessions[i], r));
            r
        },
        None => Err(AuthError::InvalidSession),
    }
}

/// A session that `establish_session` or `record_session` handed out is
/// accepted from the client with the same fingerprint, and refused from a
/// client with any other.
pub proof fn lemma_established_session_validates(
    s0: StoreModel,
    s1: StoreModel,
    u: SessionRow,
    r: Result<AuthorizedUser, AuthError>,
    other: Seq<char>,
)
    requires
        s0.wf(),
        record_session_outcome(s0, u, r, s1),
        r is Ok,
    ensures
        s1.wf(),
        session_matches(s1.sessions, r->Ok_0@.session_id, r->Ok_0@.client_signature),
        other != r->Ok_0@.client_signature ==> !session_matches(
            s1.sessions,
            r->Ok_0@.session_id,
            other,
        ),
{
    if !session_matches(s0.sessions, u.session_id, u.client_signature) {
        let last = s0.sessions.len() as int;
        assert(s1.sessions[last] == u);
        assert forall|i: int, j: int| 0 <= i < j < s1.sessions.len() implies s1.sessions[i].session_id
            != s1.sessions[j].session_id by {
            if j == last {
                assert(s1.sessions[i] == s0.sessions[i]);
            }
        }
        assert(s1.sessions[last].session_id == u.session_id);
    }
    let k = choose|k: int|
        0 <= k < s1.sessions.len() && #[trigger] s1.sessions[k].session_id == u.session_id
            && s1.sessions[k].client_signature == u.client_signature;
    lemma_token_is_key(s1, u.session_id, other);
}

/// A logged-in account and the session that was opened for it.
pub struct LoginSession {
    pub account: AccountRecord,
    pub session: AuthorizedUser,
}

/// The session part of a login's result.
pub open spec fn session_part(r: Result<LoginSession, AuthError>) -> Result<AuthorizedUser, AuthError> {
    match r {
        Ok(ls) => Ok(ls.session),
        Err(e) => Err(e),
    }
}

/// What logging in with `request` from a client with fingerprint `fp` may
/// do on store `s`, returning `r` and leaving `t`: where no account of the
/// username accepts the password, not found and no change; otherwise the
/// first account that does, with a session opened for it as
/// `record_session` opens one.
pub open spec fn login_session_outcome(
    s: StoreModel,
    u: Seq<char>,
    p: Seq<char>,
    fp: Seq<char>,
    r: Result<LoginSession, AuthError>,
    t: StoreModel,
) -> bool {
    let candidates = rows_with_username(s.accounts, u);
    if !some_verified(candidates, p) {
        r == Err::<LoginSession, AuthError>(AuthError::NotFound) && t == s
    } else {
        exists|k: int, row: SessionRow|
            #![trigger is_first_verified(candidates, p, k), record_session_outcome(s, row, session_part(r), t)]
            is_first_verified(candidates, p, k) && row.client_signature == fp && row.account_id
                == candidates[k].id && is_hyphenated_v7(row.session_id) && record_session_outcome(
                s,
                row,
                session_part(r),
                t,
            ) && (r matches Ok(ls) ==> ls.account@ == candidates[k])
    }
}

/// Logs in with `request` and opens a session bound to the fingerprint of
/// the request whose header values are `header_values`.
pub fn login_session(
    store: &mut CredentialStore,
    request: &Account,
    header_values: &Vec<Vec<u8>>,
) -> (r: Result<LoginSession, AuthError>)
    requires
        old(store).wf(),
    ensures
        final(store).wf(),
        login_session_outcome(
            old(store)@,
            request.username@,
            request.passw@,
            fingerprint_of(header_values@),
            r,
            final(store)@,
        ),
{
    let account = handle_account_login_request(request, store)?;
    let ghost candidates = rows_with_username(store@.accounts, request.username@);
    let ghost k = choose|k: int| is_first_verified(candidates, request.passw@, k) && account@ == candidates[k];
    let fingerprint = client_fingerprint(header_values);
    let session = establish_session(store, &account, fingerprint);
    let ghost row = choose|row: SessionRow|
        row.client_signature == fingerprint_of(header_values@) && row.account_id == account.id
            && is_hyphenated_v7(row.session_id) && record_session_outcome(old(store)@, row, session, store@);
    let r = match session {
        Ok(session) => Ok(LoginSession { account, session }),
        Err(e) => Err(e),
    };
    assert(session_part(r) == session);
    assert(is_first_verified(candidates, request.passw@, k) && record_session_outcome(old(store)@, row, session_part(r), store@));
    r
}

/// Whether `path` is a page only for visitors who are not logged in.
pub fn is_guest_only_path(path: &String) -> (r: bool)
    ensures
        r == (path@ == "/login"@ || path@ == "/register"@),
{
    let login = String::from_str("/login");
    let register = String::from_str("/register");
    *path == login || *path == register
}

/// Whether a request for `path` that carries the session cookie of token
/// `session_id`, from a client with fingerprint `fingerprint`, is sent to
/// the main page: the path is for visitors who are not logged in, and the
/// session is valid.
pub fn redirects_home(store: &CredentialStore, path: &String, session_id: &String, fingerprint: &String) -> (r:
    bool)
    requires
        store.wf(),
    ensures
        r == ((path@ == "/login"@ || path@ == "/register"@) && session_matches(
            store@.sessions,
            session_id@,
            fingerprint@,
        )),
{
    is_guest_only_path(path) && validate_session(store, session_id, fingerprint).is_some()
}

} // verus!
