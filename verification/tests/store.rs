//! The credential store and the lookup of users.

use pam_kv::password::Password;
use pam_kv::store::{CredentialStore, StoreError, UserEntry};

const HASH: &str =
    "$argon2id$v=19$m=65536,t=2,p=1$c29tZXNhbHQ$CTFhFdXPJO1aFaMaO6Mm5c8y7cJHAph8ArZWb2GRPPc";

fn raw(name: &str, secret: &str) -> UserEntry {
    UserEntry { username: name.to_string(), password: Password::Raw(secret.to_string()), disabled: None }
}

fn hashed(name: &str, hash: &str) -> UserEntry {
    UserEntry { username: name.to_string(), password: Password::Encrypted(hash.to_string()), disabled: None }
}

fn secret_of(entry: &UserEntry) -> &str {
    match &entry.password {
        Password::Raw(text) => text,
        Password::Encrypted(hash) => hash,
    }
}

#[test]
fn a_known_user_is_found() {
    let store = CredentialStore::new(vec![raw("alice", "a"), raw("bob", "b")]).ok().unwrap();
    assert_eq!(store.len(), 2);
    assert_eq!(secret_of(store.lookup("alice").unwrap()), "a");
    assert_eq!(secret_of(store.lookup("bob").unwrap()), "b");
}

#[test]
fn an_unknown_user_is_not_found() {
    let store = CredentialStore::new(vec![raw("alice", "a")]).ok().unwrap();
    assert!(store.lookup("bob").is_none());
    assert!(store.lookup("Alice").is_none());
    assert!(store.lookup("alice ").is_none());
    assert!(store.lookup("").is_none());
}

#[test]
fn the_empty_store_knows_nobody() {
    let store = CredentialStore::new(Vec::new()).ok().unwrap();
    assert_eq!(store.len(), 0);
    assert!(store.lookup("alice").is_none());
}

#[test]
fn of_duplicate_usernames_the_last_record_wins() {
    let store = CredentialStore::new(vec![raw("alice", "first"), raw("bob", "b"), raw("alice", "second")])
        .ok()
        .unwrap();
    assert_eq!(store.len(), 3);
    assert_eq!(secret_of(store.lookup("alice").unwrap()), "second");
}

#[test]
fn a_disabled_record_is_handed_out_as_it_is() {
    let mut entry = raw("alice", "a");
    entry.disabled = Some(true);
    let store = CredentialStore::new(vec![entry]).ok().unwrap();
    assert_eq!(store.lookup("alice").unwrap().disabled, Some(true));
}

#[test]
fn records_with_well_formed_hashes_are_a_store() {
    let store = CredentialStore::new(vec![hashed("alice", HASH), raw("bob", "b")]).ok().unwrap();
    assert_eq!(secret_of(store.lookup("alice").unwrap()), HASH);
}

#[test]
fn a_hash_that_does_not_parse_is_refused_with_its_position() {
    let result = CredentialStore::new(vec![raw("alice", "a"), hashed("bob", "hunter2"), hashed("eve", "")]);
    assert_eq!(result.err(), Some(StoreError::InvalidHash(1)));
    let result = CredentialStore::new(vec![hashed("bob", "$argon2id$v=nineteen")]);
    assert_eq!(result.err(), Some(StoreError::InvalidHash(0)));
}

#[test]
fn a_raw_password_that_looks_like_nothing_is_accepted() {
    assert!(CredentialStore::new(vec![raw("alice", ""), raw("bob", "$")]).is_ok());
}
