use std::collections::BTreeMap;

use hasznalt::account::Account;
use hasznalt::auth::handle_account_register_request;
use hasznalt::claims::{create_claims, get_claims_from_str};
use hasznalt::client::{NewAccount, SearchBarMessage, Searchbar, TextField, TextFieldMessage};
use hasznalt::date::CalendarDate;
use hasznalt::error::AuthError;
use hasznalt::session::{client_fingerprint, AuthorizedUser};
use hasznalt::session_flow::{
    account_for_session, check_authenticated_account, establish_session, is_guest_only_path,
    login_session, record_authenticated_account, record_session, redirects_home, validate_session,
};
use hasznalt::store::CredentialStore;

fn day() -> CalendarDate {
    CalendarDate::from_ymd(2024, 1, 2).unwrap()
}

fn store_with(u: &str, p: &str) -> CredentialStore {
    let mut store = CredentialStore::new();
    let a = Account::new(u.to_string(), p.to_string());
    assert_eq!(handle_account_register_request(&a, &mut store, day()), Ok(1));
    store
}

fn session(sig: &str, id: &str, account_id: i32) -> AuthorizedUser {
    AuthorizedUser {
        client_signature: sig.to_string(),
        session_id: id.to_string(),
        account_id,
    }
}

#[test]
fn fingerprint_is_digest_of_joined_headers() {
    let whole = client_fingerprint(&vec![b"hello".to_vec()]);
    assert_eq!(whole, "2cf24dba5fb0a30e26e83b2ac5b9e29e1b161e5c1fa7425e73043362938b9824");
    let split = client_fingerprint(&vec![b"he".to_vec(), Vec::new(), b"llo".to_vec()]);
    assert_eq!(split, whole);
    let none = client_fingerprint(&Vec::new());
    assert_eq!(none, "e3b0c44298fc1c149afbf4c8996fb92427ae41e4649b934ca495991b7852b855");
}

#[test]
fn session_tokens_are_fresh() {
    let store = store_with("kim", "pw");
    let account = store.find_account_by_id(1).unwrap();
    let a = AuthorizedUser::from_account(&account, "sig".to_string());
    let b = AuthorizedUser::from_account(&account, "sig".to_string());
    assert_eq!(a.session_id.len(), 36);
    assert_ne!(a.session_id, b.session_id);
    assert_eq!(a.account_id, 1);
    assert_eq!(a.client_signature, "sig");
}

#[test]
fn established_session_validates_only_for_same_fingerprint() {
    let mut store = store_with("lena", "pw");
    let account = store.find_account_by_id(1).unwrap();
    let fp = client_fingerprint(&vec![b"agent-a".to_vec()]);
    let other = client_fingerprint(&vec![b"agent-b".to_vec()]);
    let token = establish_session(&mut store, &account, fp.clone()).unwrap();
    assert_eq!(store.session_count(), 1);
    let ok = validate_session(&store, &token.session_id, &fp).unwrap();
    assert_eq!(ok.account_id, 1);
    assert!(validate_session(&store, &token.session_id, &other).is_none());
    assert!(validate_session(&store, &"no such token".to_string(), &fp).is_none());
}

#[test]
fn record_session_keeps_existing_and_refuses_taken_token() {
    let mut store = CredentialStore::new();
    assert!(record_session(&mut store, session("s1", "t1", 5)).is_ok());
    assert!(record_session(&mut store, session("s1", "t1", 5)).is_ok());
    assert_eq!(store.session_count(), 1);
    assert!(matches!(record_session(&mut store, session("s2", "t1", 5)), Err(AuthError::Storage)));
    assert_eq!(store.session_count(), 1);
}

#[test]
fn insert_session_refuses_duplicate_token() {
    let mut store = CredentialStore::new();
    assert_eq!(record_authenticated_account(&session("a", "tok", 1), &mut store), Ok(1));
    assert_eq!(record_authenticated_account(&session("b", "tok", 2), &mut store), Err(AuthError::Storage));
    assert_eq!(store.session_count(), 1);
    assert_eq!(store.find_session_by_id(&"tok".to_string()).unwrap().client_signature, "a");
}

#[test]
fn check_matches_token_and_signature() {
    let mut store = CredentialStore::new();
    assert_eq!(store.insert_session(&session("sig", "tok", 3)), Ok(1));
    assert!(check_authenticated_account(&store, &session("sig", "tok", 99)).is_some());
    assert!(check_authenticated_account(&store, &session("gis", "tok", 3)).is_none());
    assert!(check_authenticated_account(&store, &session("sig", "kot", 3)).is_none());
}

#[test]
fn account_for_session_outcomes() {
    let mut store = store_with("mia", "pw");
    assert_eq!(store.insert_session(&session("fp", "good", 1)), Ok(1));
    assert_eq!(store.insert_session(&session("fp", "orphan", 42)), Ok(1));
    let a = account_for_session(&store, &"good".to_string(), &"fp".to_string()).unwrap();
    assert_eq!(a.username, "mia");
    assert_eq!(a.id, 1);
    assert!(matches!(
        account_for_session(&store, &"good".to_string(), &"other".to_string()),
        Err(AuthError::InvalidSession)
    ));
    assert!(matches!(
        account_for_session(&store, &"orphan".to_string(), &"fp".to_string()),
        Err(AuthError::NotFound)
    ));
}

#[test]
fn login_session_opens_a_session() {
    let mut store = store_with("nora", "pw");
    let headers = vec![b"ua".to_vec(), b"lang".to_vec()];
    let ls = login_session(&mut store, &Account::new("nora".to_string(), "pw".to_string()), &headers)
        .unwrap();
    assert_eq!(ls.account.username, "nora");
    assert_eq!(ls.session.account_id, 1);
    assert_eq!(ls.session.client_signature, client_fingerprint(&headers));
    assert_eq!(store.session_count(), 1);
    let fp = client_fingerprint(&headers);
    assert!(validate_session(&store, &ls.session.session_id, &fp).is_some());
    let bad = login_session(&mut store, &Account::new("nora".to_string(), "no".to_string()), &headers);
    assert!(matches!(bad, Err(AuthError::NotFound)));
    assert_eq!(store.session_count(), 1);
}

#[test]
fn redirect_rule() {
    let mut store = CredentialStore::new();
    assert_eq!(store.insert_session(&session("fp", "tok", 1)), Ok(1));
    let tok = "tok".to_string();
    let fp = "fp".to_string();
    assert!(is_guest_only_path(&"/login".to_string()));
    assert!(is_guest_only_path(&"/register".to_string()));
    assert!(!is_guest_only_path(&"/".to_string()));
    assert!(redirects_home(&store, &"/login".to_string(), &tok, &fp));
    assert!(redirects_home(&store, &"/register".to_string(), &tok, &fp));
    assert!(!redirects_home(&store, &"/account/1".to_string(), &tok, &fp));
    assert!(!redirects_home(&store, &"/login".to_string(), &tok, &"xx".to_string()));
}

#[test]
fn claims_round_trip() {
    let mut claims = BTreeMap::new();
    claims.insert("sub".to_string(), "someone".to_string());
    let token = create_claims(claims.clone(), b"secret").unwrap();
    assert_eq!(token.split('.').count(), 3);
    assert_eq!(get_claims_from_str(&token, b"secret").unwrap(), claims);
    assert!(matches!(get_claims_from_str(&token, b"other"), Err(AuthError::InvalidToken)));
    assert!(matches!(get_claims_from_str("garbage", b"secret"), Err(AuthError::InvalidToken)));
}

#[test]
fn text_inputs_store_their_value() {
    let mut buffer = String::from("old");
    assert!(TextField.update(&mut buffer, TextFieldMessage::ValueUpdate("new".to_string())));
    assert_eq!(buffer, "new");
    assert!(Searchbar.update(&mut buffer, SearchBarMessage::ValueUpdate(String::new())));
    assert_eq!(buffer, "");
}

#[test]
fn new_account_converts_to_credentials() {
    let n = NewAccount::new("olga".to_string(), "pw".to_string());
    let a = n.into_account();
    assert_eq!(a.username, "olga");
    assert_eq!(a.passw, "pw");
}

#[test]
fn session_token_is_hyphenated_v7() {
    let store = store_with("pia", "pw");
    let account = store.find_account_by_id(1).unwrap();
    let t = AuthorizedUser::from_account(&account, String::new()).session_id;
    let b = t.as_bytes();
    assert_eq!(b.len(), 36);
    for i in [8, 13, 18, 23] {
        assert_eq!(b[i], b'-');
    }
    assert_eq!(b[14], b'7');
    for (i, c) in b.iter().enumerate() {
        if ![8, 13, 18, 23].contains(&i) {
            assert!(c.is_ascii_digit() || (b'a'..=b'f').contains(c));
        }
    }
}

#[test]
fn sessions_by_position() {
    let mut store = CredentialStore::new();
    assert_eq!(store.insert_session(&session("s", "t", 4)), Ok(1));
    assert_eq!(store.session_at(0).session_id, "t");
    assert_eq!(store.session_at(0).account_id, 4);
}
