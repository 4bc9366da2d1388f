use session_auth::session_id::SessionId;
use session_auth::store::{Account, Credential, CredentialStore, Session, StoreError};

fn upsert(store: &mut CredentialStore, account_id: i64, name: &str, access: &str, now: i64) -> Credential {
    store.upsert_account_and_credential(
        account_id,
        name.to_string(),
        access.to_string(),
        format!("refresh-of-{access}"),
        now + 3600,
        now,
    )
}

#[test]
fn a_new_store_holds_nothing() {
    let store = CredentialStore::new();
    assert_eq!(store.account_rows(1), 0);
    assert_eq!(store.credential_rows(1), 0);
    assert_eq!(store.session_rows(1), 0);
    assert_eq!(store.account(1), None);
    assert_eq!(store.credential_for(1), None);
    assert_eq!(store.session_for(1), None);
    assert!(!store.has_session(SessionId { value: 1 }));
}

#[test]
fn upsert_creates_the_account_and_its_credential() {
    let mut store = CredentialStore::new();
    let credential = upsert(&mut store, 7, "ada", "tok-a", 100);
    let expected = Credential {
        account_id: 7,
        access_token: "tok-a".to_string(),
        refresh_token: "refresh-of-tok-a".to_string(),
        access_expires_at: 3700,
    };
    assert_eq!(credential, expected);
    assert_eq!(store.credential_for(7), Some(expected));
    assert_eq!(
        store.account(7),
        Some(Account {
            account_id: 7,
            display_name: "ada".to_string(),
            created_at: 100,
            updated_at: 100,
        })
    );
    assert_eq!(store.account_rows(7), 1);
    assert_eq!(store.credential_rows(7), 1);
    assert_eq!(store.session_rows(7), 0);
}

#[test]
fn upsert_again_replaces_the_credential_and_keeps_the_account() {
    let mut store = CredentialStore::new();
    upsert(&mut store, 7, "ada", "tok-a", 100);
    let second = upsert(&mut store, 7, "ada lovelace", "tok-b", 200);
    assert_eq!(second.access_token, "tok-b");
    assert_eq!(store.account_rows(7), 1);
    assert_eq!(store.credential_rows(7), 1);
    assert_eq!(store.credential_for(7), Some(second));
    let account = store.account(7).unwrap();
    assert_eq!(account.display_name, "ada");
    assert_eq!(account.created_at, 100);
    assert_eq!(account.updated_at, 100);
}

#[test]
fn upsert_leaves_other_accounts_alone() {
    let mut store = CredentialStore::new();
    let first = upsert(&mut store, 1, "one", "tok-1", 10);
    upsert(&mut store, 2, "two", "tok-2", 20);
    upsert(&mut store, 2, "two", "tok-2b", 30);
    assert_eq!(store.credential_for(1), Some(first));
    assert_eq!(store.account_rows(1), 1);
    assert_eq!(store.account_rows(2), 1);
    assert_eq!(store.credential_rows(1), 1);
    assert_eq!(store.credential_rows(2), 1);
}

#[test]
fn install_session_opens_a_session() {
    let mut store = CredentialStore::new();
    upsert(&mut store, 7, "ada", "tok-a", 100);
    let id = SessionId { value: 0xabc };
    let expected = Session { session_id: id, account_id: 7, created_at: 101 };
    assert_eq!(store.install_session(7, id, 101), Ok(expected));
    assert!(store.has_session(id));
    assert_eq!(store.session_for(7), Some(expected));
    assert_eq!(store.session_rows(7), 1);
}

#[test]
fn install_session_replaces_the_session_of_the_account() {
    let mut store = CredentialStore::new();
    upsert(&mut store, 7, "ada", "tok-a", 100);
    let old = SessionId { value: 1 };
    let new = SessionId { value: 2 };
    store.install_session(7, old, 101).unwrap();
    store.install_session(7, new, 102).unwrap();
    assert!(!store.has_session(old));
    assert!(store.has_session(new));
    assert_eq!(store.session_rows(7), 1);
    assert_eq!(store.session_for(7), Some(Session { session_id: new, account_id: 7, created_at: 102 }));
}

#[test]
fn install_session_with_the_same_identifier_renews_it() {
    let mut store = CredentialStore::new();
    upsert(&mut store, 7, "ada", "tok-a", 100);
    let id = SessionId { value: 1 };
    store.install_session(7, id, 101).unwrap();
    assert_eq!(
        store.install_session(7, id, 150),
        Ok(Session { session_id: id, account_id: 7, created_at: 150 })
    );
    assert_eq!(store.session_rows(7), 1);
    assert!(store.has_session(id));
}

#[test]
fn install_session_needs_a_credential() {
    let mut store = CredentialStore::new();
    let id = SessionId { value: 1 };
    assert_eq!(store.install_session(7, id, 101), Err(StoreError::InvariantViolation));
    assert!(!store.has_session(id));
    assert_eq!(store.session_rows(7), 0);
    assert_eq!(store.account_rows(7), 0);
}

#[test]
fn install_session_refuses_an_identifier_of_another_account() {
    let mut store = CredentialStore::new();
    upsert(&mut store, 1, "one", "tok-1", 10);
    upsert(&mut store, 2, "two", "tok-2", 20);
    let id = SessionId { value: 99 };
    store.install_session(1, id, 11).unwrap();
    let own = SessionId { value: 5 };
    store.install_session(2, own, 21).unwrap();
    assert_eq!(store.install_session(2, id, 22), Err(StoreError::InvariantViolation));
    assert_eq!(store.session_for(1), Some(Session { session_id: id, account_id: 1, created_at: 11 }));
    assert_eq!(store.session_for(2), Some(Session { session_id: own, account_id: 2, created_at: 21 }));
}

#[test]
fn session_taken_by_other_tells_whose_it_is() {
    let mut store = CredentialStore::new();
    upsert(&mut store, 1, "one", "tok-1", 10);
    let id = SessionId { value: 99 };
    store.install_session(1, id, 11).unwrap();
    assert!(!store.session_taken_by_other(id, 1));
    assert!(store.session_taken_by_other(id, 2));
    assert!(!store.session_taken_by_other(SessionId { value: 100 }, 2));
}

#[test]
fn create_or_replace_session_draws_an_identifier() {
    let mut store = CredentialStore::new();
    upsert(&mut store, 7, "ada", "tok-a", 100);
    let first = store.create_or_replace_session(7, 101).unwrap();
    assert!(store.has_session(first));
    let second = store.create_or_replace_session(7, 102).unwrap();
    assert_ne!(first, second);
    assert!(!store.has_session(first));
    assert!(store.has_session(second));
    assert_eq!(store.session_rows(7), 1);
    assert_eq!(store.session_for(7).unwrap().created_at, 102);
}

#[test]
fn create_or_replace_session_needs_a_credential() {
    let mut store = CredentialStore::new();
    assert_eq!(store.create_or_replace_session(7, 101), Err(StoreError::InvariantViolation));
    assert_eq!(store.session_rows(7), 0);
}

#[test]
fn delete_session_says_whether_there_was_one() {
    let mut store = CredentialStore::new();
    upsert(&mut store, 7, "ada", "tok-a", 100);
    let id = SessionId { value: 1 };
    store.install_session(7, id, 101).unwrap();
    assert!(!store.delete_session(SessionId { value: 2 }));
    assert!(store.has_session(id));
    assert!(store.delete_session(id));
    assert!(!store.has_session(id));
    assert!(!store.delete_session(id));
    assert_eq!(store.session_rows(7), 0);
}

#[test]
fn delete_session_keeps_the_account_and_its_credential() {
    let mut store = CredentialStore::new();
    let credential = upsert(&mut store, 7, "ada", "tok-a", 100);
    let id = SessionId { value: 1 };
    store.install_session(7, id, 101).unwrap();
    store.delete_session(id);
    assert_eq!(store.account_rows(7), 1);
    assert_eq!(store.credential_rows(7), 1);
    assert_eq!(store.credential_for(7), Some(credential));
}

#[test]
fn delete_session_leaves_other_sessions_alone() {
    let mut store = CredentialStore::new();
    upsert(&mut store, 1, "one", "tok-1", 10);
    upsert(&mut store, 2, "two", "tok-2", 20);
    let first = SessionId { value: 1 };
    let second = SessionId { value: 2 };
    store.install_session(1, first, 11).unwrap();
    store.install_session(2, second, 21).unwrap();
    assert!(store.delete_session(first));
    assert!(store.has_session(second));
    assert_eq!(store.session_rows(2), 1);
    assert_eq!(store.session_rows(1), 0);
}

#[test]
fn duplicate_copies_a_row() {
    let credential = Credential {
        account_id: 3,
        access_token: "a".to_string(),
        refresh_token: "r".to_string(),
        access_expires_at: 9,
    };
    assert_eq!(credential.duplicate(), credential);
    let account = Account { account_id: 3, display_name: "n".to_string(), created_at: 1, updated_at: 2 };
    assert_eq!(account.duplicate(), account);
}
