use auth_rs::database::{Database, StoreReply, StoreRequest};
use auth_rs::error::{AuthError, Conflict};
use auth_rs::store::{TokenStore, UserStore};

#[test]
fn token_store_insert_and_find() {
    let mut store = TokenStore::new();
    let id = store.insert(7, "cli".to_string(), "h1".to_string(), Some(100), 5).unwrap();
    assert_eq!(id, 0);
    assert_eq!(store.insert(7, "cli".to_string(), "h2".to_string(), None, 6), Ok(1));
    let row = store.find_by_hash("h1", 99).unwrap();
    assert_eq!(row.id, 0);
    assert_eq!(row.user_id, 7);
    assert_eq!(row.name, "cli");
    assert_eq!(row.token, "h1");
    assert_eq!(row.expires_at, Some(100));
    assert_eq!(row.created_at, 5);
    assert_eq!(row.updated_at, 5);
    assert_eq!(row.last_used_at, None);
    assert_eq!(store.find_by_hash("h1", 100).unwrap_err(), AuthError::NotFound);
    assert_eq!(store.find_by_hash("h3", 0).unwrap_err(), AuthError::NotFound);
    assert_eq!(store.find_by_hash("h2", i128::MAX).unwrap().id, 1);
}

#[test]
fn token_store_refuses_a_duplicate_hash() {
    let mut store = TokenStore::new();
    store.insert(7, "a".to_string(), "h".to_string(), None, 5).unwrap();
    let again = store.insert(8, "b".to_string(), "h".to_string(), Some(1), 6);
    assert_eq!(again, Err(AuthError::Conflict(Conflict::SecretCollision)));
    let row = store.find_by_hash("h", 6).unwrap();
    assert_eq!(row.user_id, 7);
    assert_eq!(row.name, "a");
    assert_eq!(store.insert(8, "b".to_string(), "H".to_string(), None, 6), Ok(1));
}

#[test]
fn token_store_touch_and_delete() {
    let mut store = TokenStore::new();
    store.insert(7, "a".to_string(), "h1".to_string(), None, 5).unwrap();
    store.insert(7, "b".to_string(), "h2".to_string(), None, 5).unwrap();
    store.touch_last_used("h1", 9);
    store.touch_last_used("missing", 9);
    assert_eq!(store.find_by_hash("h1", 9).unwrap().last_used_at, Some(9));
    assert_eq!(store.find_by_hash("h2", 9).unwrap().last_used_at, None);
    store.delete_by_hash("h1");
    store.delete_by_hash("h1");
    store.delete_by_hash("missing");
    assert_eq!(store.find_by_hash("h1", 9).unwrap_err(), AuthError::NotFound);
    assert_eq!(store.find_by_hash("h2", 9).unwrap().name, "b");
    assert_eq!(store.insert(7, "c".to_string(), "h1".to_string(), None, 10), Ok(2));
}

#[test]
fn user_store_insert_find_delete() {
    let mut store = UserStore::new();
    let alice = store.insert("alice@example.com".to_string(), "ha".to_string(), 3).unwrap();
    assert_eq!(alice.id, 0);
    assert_eq!(alice.email, "alice@example.com");
    assert_eq!(alice.password_hash, "ha");
    assert_eq!(alice.created_at, 3);
    assert_eq!(alice.updated_at, 3);
    let bob = store.insert("bob@example.com".to_string(), "hb".to_string(), 4).unwrap();
    assert_eq!(bob.id, 1);
    let taken = store.insert("alice@example.com".to_string(), "other".to_string(), 5);
    assert_eq!(taken.unwrap_err(), AuthError::Conflict(Conflict::EmailTaken));
    assert_eq!(store.find_by_email("alice@example.com").unwrap().password_hash, "ha");
    assert!(store.find_by_email("ALICE@example.com").is_none());
    assert_eq!(store.find_by_id(1).unwrap().email, "bob@example.com");
    assert!(store.find_by_id(2).is_none());
    store.delete_by_id(0);
    store.delete_by_id(0);
    assert!(store.find_by_email("alice@example.com").is_none());
    assert!(store.find_by_id(0).is_none());
    assert_eq!(store.find_by_id(1).unwrap().email, "bob@example.com");
    assert_eq!(store.insert("alice@example.com".to_string(), "hc".to_string(), 6).unwrap().id, 2);
}

#[test]
fn database_performs_requests() {
    let mut db = Database::new();
    let found = db.perform(StoreRequest::FindUserByEmail { email: "a@b.c".to_string() }, 1);
    assert!(matches!(found, StoreReply::NoRow));
    let inserted = db.perform(
        StoreRequest::InsertUser { email: "a@b.c".to_string(), password_hash: "h".to_string() },
        2,
    );
    let id = match inserted {
        StoreReply::User(user) => {
            assert_eq!(user.email, "a@b.c");
            assert_eq!(user.created_at, 2);
            user.id
        },
        other => panic!("{:?}", other),
    };
    let again = db.perform(
        StoreRequest::InsertUser { email: "a@b.c".to_string(), password_hash: "x".to_string() },
        3,
    );
    assert!(matches!(again, StoreReply::Duplicate));
    let token = db.perform(
        StoreRequest::InsertToken {
            user_id: id,
            name: "n".to_string(),
            hash: "th".to_string(),
            expires_at: Some(10),
        },
        4,
    );
    assert!(matches!(token, StoreReply::TokenId(0)));
    let dup = db.perform(
        StoreRequest::InsertToken {
            user_id: id,
            name: "n".to_string(),
            hash: "th".to_string(),
            expires_at: None,
        },
        4,
    );
    assert!(matches!(dup, StoreReply::Duplicate));
    match db.perform(StoreRequest::FindTokenOwner { hash: "th".to_string() }, 9) {
        StoreReply::User(user) => assert_eq!(user.id, id),
        other => panic!("{:?}", other),
    }
    let expired = db.perform(StoreRequest::FindTokenOwner { hash: "th".to_string() }, 10);
    assert!(matches!(expired, StoreReply::NoRow));
    let touched = db.perform(StoreRequest::TouchToken { hash: "th".to_string() }, 5);
    assert!(matches!(touched, StoreReply::Done));
    assert_eq!(db.tokens.find_by_hash("th", 5).unwrap().last_used_at, Some(5));
    let deleted = db.perform(StoreRequest::DeleteToken { hash: "th".to_string() }, 6);
    assert!(matches!(deleted, StoreReply::Done));
    let gone = db.perform(StoreRequest::FindTokenOwner { hash: "th".to_string() }, 6);
    assert!(matches!(gone, StoreReply::NoRow));
    let undone = db.perform(StoreRequest::DeleteUser { id }, 7);
    assert!(matches!(undone, StoreReply::Done));
    let lookup = db.perform(StoreRequest::FindUserByEmail { email: "a@b.c".to_string() }, 8);
    assert!(matches!(lookup, StoreReply::NoRow));
}

#[test]
fn retryable_errors() {
    assert!(AuthError::TransientStore.is_retryable());
    assert!(!AuthError::Rejected.is_retryable());
    assert!(!AuthError::Validation.is_retryable());
    assert!(!AuthError::NotFound.is_retryable());
    assert!(!AuthError::FatalConfig.is_retryable());
    assert!(!AuthError::Conflict(Conflict::EmailTaken).is_retryable());
}

#[test]
fn messages_do_not_tell_causes_apart() {
    assert_eq!(AuthError::Rejected.message(), "invalid credentials");
    assert_eq!(AuthError::Validation.message(), "invalid input");
    assert_eq!(AuthError::Conflict(Conflict::EmailTaken).message(), "email already registered");
    assert_eq!(AuthError::Conflict(Conflict::SecretCollision).message(), "could not issue a token");
    assert_eq!(AuthError::NotFound.message(), "not found");
    assert_eq!(AuthError::TransientStore.message(), "temporarily unavailable, try again");
    assert_eq!(AuthError::FatalConfig.message(), "service is not configured");
}
