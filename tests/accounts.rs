use hasznalt::account::Account;
use hasznalt::auth::{
    handle_account_login_request, handle_account_register_request, lookup_account_from_id,
};
use hasznalt::date::CalendarDate;
use hasznalt::error::AuthError;
use hasznalt::password::{hash_password, verify_password};
use hasznalt::store::CredentialStore;

fn day() -> CalendarDate {
    CalendarDate::from_ymd(2024, 3, 15).unwrap()
}

fn creds(u: &str, p: &str) -> Account {
    Account::new(u.to_string(), p.to_string())
}

#[test]
fn register_same_username_twice_conflicts() {
    let mut store = CredentialStore::new();
    assert_eq!(handle_account_register_request(&creds("bob", "one"), &mut store, day()), Ok(1));
    assert_eq!(store.account_count(), 1);
    assert_eq!(
        handle_account_register_request(&creds("bob", "two"), &mut store, day()),
        Err(AuthError::Conflict)
    );
    assert_eq!(store.account_count(), 1);
}

#[test]
fn usernames_are_case_sensitive() {
    let mut store = CredentialStore::new();
    assert_eq!(handle_account_register_request(&creds("Bob", "x"), &mut store, day()), Ok(1));
    assert_eq!(handle_account_register_request(&creds("bob", "x"), &mut store, day()), Ok(1));
    assert_eq!(store.account_count(), 2);
}

#[test]
fn hash_then_verify() {
    let h = hash_password("correct horse").unwrap();
    assert!(h.starts_with("$argon2"));
    assert_ne!(h, "correct horse");
    assert!(verify_password("correct horse", &h));
    assert!(!verify_password("wrong horse", &h));
}

#[test]
fn hashes_use_fresh_salts() {
    let a = hash_password("same").unwrap();
    let b = hash_password("same").unwrap();
    assert_ne!(a, b);
    assert!(verify_password("same", &a));
    assert!(verify_password("same", &b));
}

#[test]
fn verify_refuses_malformed_hash() {
    assert!(!verify_password("pw", "not a phc string"));
    assert!(!verify_password("", ""));
}

#[test]
fn login_unknown_username_not_found() {
    let mut store = CredentialStore::new();
    assert_eq!(handle_account_register_request(&creds("carol", "pw"), &mut store, day()), Ok(1));
    for p in ["", "pw", "anything", "$argon2id$"] {
        let r = handle_account_login_request(&creds("dave", p), &store);
        assert!(matches!(r, Err(AuthError::NotFound)));
    }
    let empty = CredentialStore::new();
    assert!(matches!(handle_account_login_request(&creds("", ""), &empty), Err(AuthError::NotFound)));
}

#[test]
fn login_checks_password() {
    let mut store = CredentialStore::new();
    assert_eq!(handle_account_register_request(&creds("erin", "secret"), &mut store, day()), Ok(1));
    let ok = handle_account_login_request(&creds("erin", "secret"), &store).unwrap();
    assert_eq!(ok.username, "erin");
    assert_eq!(ok.id, 1);
    assert_eq!(ok.created_at, day());
    assert!(matches!(
        handle_account_login_request(&creds("erin", "Secret"), &store),
        Err(AuthError::NotFound)
    ));
}

#[test]
fn login_picks_first_matching_account() {
    let mut store = CredentialStore::new();
    assert_eq!(store.insert_account(&creds("frank", "a"), day()), Ok(1));
    assert_eq!(store.insert_account(&creds("frank", "b"), day()), Ok(1));
    assert_eq!(store.account_count(), 2);
    assert_eq!(handle_account_login_request(&creds("frank", "b"), &store).unwrap().id, 2);
    assert_eq!(handle_account_login_request(&creds("frank", "a"), &store).unwrap().id, 1);
}

#[test]
fn insert_then_find_round_trip() {
    let mut store = CredentialStore::new();
    assert_eq!(store.insert_account(&creds("alice", "pw"), day()), Ok(1));
    let found = store.find_account_by_username(&"alice".to_string()).unwrap();
    assert_eq!(found.username, "alice");
    assert_ne!(found.passw, "pw");
    assert!(verify_password("pw", &found.passw));
    assert!(store.find_account_by_username(&"Alice".to_string()).is_none());
}

#[test]
fn ids_are_assigned_in_order() {
    let mut store = CredentialStore::new();
    let raw = Account::new("g".to_string(), "stored as is".to_string());
    assert_eq!(store.insert_storable(&raw, day()), Ok(1));
    assert_eq!(store.insert_storable(&raw, day()), Ok(1));
    assert_eq!(store.find_account_by_id(1).unwrap().id, 1);
    assert_eq!(store.find_account_by_id(2).unwrap().passw, "stored as is");
    assert!(matches!(store.find_account_by_id(3), Err(AuthError::NotFound)));
    assert_eq!(store.find_accounts_by_username(&"g".to_string()).len(), 2);
    assert_eq!(store.find_accounts_by_username(&"h".to_string()).len(), 0);
}

#[test]
fn lookup_by_id_gives_public_data() {
    let mut store = CredentialStore::new();
    assert_eq!(handle_account_register_request(&creds("hana", "pw"), &mut store, day()), Ok(1));
    let public = lookup_account_from_id(1, &store).unwrap();
    assert_eq!(public.username, "hana");
    assert_eq!(public.id, 1);
    assert_eq!(public.created_at, day());
    assert!(matches!(lookup_account_from_id(7, &store), Err(AuthError::NotFound)));
    assert!(matches!(lookup_account_from_id(-1, &store), Err(AuthError::NotFound)));
}

#[test]
fn into_storable_hashes_the_password() {
    let a = creds("ivan", "plain");
    let s = a.into_storable().unwrap();
    assert_eq!(s.username, "ivan");
    assert_ne!(s.passw, "plain");
    assert!(verify_password("plain", &s.passw));
}

#[test]
fn calendar_dates() {
    assert!(CalendarDate::from_ymd(2024, 2, 29).is_some());
    assert!(CalendarDate::from_ymd(2023, 2, 29).is_none());
    assert!(CalendarDate::from_ymd(1900, 2, 29).is_none());
    assert!(CalendarDate::from_ymd(2000, 2, 29).is_some());
    assert!(CalendarDate::from_ymd(2024, 4, 31).is_none());
    assert!(CalendarDate::from_ymd(2024, 12, 31).is_some());
    assert!(CalendarDate::from_ymd(2024, 13, 1).is_none());
    assert!(CalendarDate::from_ymd(2024, 0, 1).is_none());
    assert!(CalendarDate::from_ymd(2024, 1, 0).is_none());
    let d = CalendarDate::from_ymd(-44, 3, 15).unwrap();
    assert_eq!((d.year, d.month, d.day), (-44, 3, 15));
}

#[test]
fn error_messages() {
    assert_eq!(AuthError::NotFound.message(), "Profile not found");
    assert_eq!(AuthError::Conflict.message(), "User already exists.");
}

#[test]
fn hash_has_default_argon2id_shape() {
    let h = hash_password("pw").unwrap();
    assert_eq!(h.len(), 97);
    assert!(h.starts_with("$argon2id$v=19$m=19456,t=2,p=1$"));
    assert_eq!(h.as_bytes()[53], b'$');
    assert!(verify_password("pw", &h));
}

#[test]
fn empty_credentials_register() {
    let mut store = CredentialStore::new();
    assert_eq!(handle_account_register_request(&creds("", ""), &mut store, day()), Ok(1));
    assert_eq!(handle_account_register_request(&creds("x", ""), &mut store, day()), Ok(1));
    assert_eq!(handle_account_register_request(&creds("", "y"), &mut store, day()), Err(AuthError::Conflict));
    assert_eq!(store.account_count(), 2);
    assert_eq!(handle_account_login_request(&creds("", ""), &store).unwrap().id, 1);
}

#[test]
fn all_error_messages() {
    assert_eq!(AuthError::Storage.message(), "Storage failure");
    assert_eq!(AuthError::Hashing.message(), "Password hashing failed");
    assert_eq!(AuthError::InvalidSession.message(), "Invalid session");
    assert_eq!(AuthError::InvalidToken.message(), "Invalid token");
}

#[test]
fn rows_by_position() {
    let mut store = CredentialStore::new();
    assert_eq!(store.insert_account(&creds("p1", "a"), day()), Ok(1));
    assert_eq!(store.insert_account(&creds("p2", "b"), day()), Ok(1));
    assert_eq!(store.account_at(0).username, "p1");
    assert_eq!(store.account_at(1).id, 2);
}
