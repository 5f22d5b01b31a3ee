use auth_rs::authenticator::{authenticate, bearer_secret, AuthenticatedUser};
use auth_rs::clock::{expires_at, is_live, NANOS_PER_DAY};
use auth_rs::database::Database;
use auth_rs::entities::User;
use auth_rs::error::{AuthError, Conflict};
use auth_rs::flow::{Outcome, Progress};
use auth_rs::token_service::TokenService;
use auth_rs::user_service::UserService;

fn database_with_user(email: &str) -> (Database, User) {
    let mut db = Database::new();
    let user = db.users.insert(email.to_string(), "stored-hash".to_string(), 0).unwrap();
    (db, user)
}

#[test]
fn credential_expires_after_its_lifetime() {
    let tokens = TokenService::new();
    let (mut db, user) = database_with_user("alice@example.com");
    let issued_at: i128 = 1_700_000_000_000_000_000;
    let secret = tokens
        .create_token_at(&mut db, user.id, "auth-token".to_string(), Some(30), issued_at, "S".to_string())
        .unwrap();
    assert_eq!(secret, "S");
    let day29 = issued_at + 29 * NANOS_PER_DAY;
    let day30 = issued_at + 30 * NANOS_PER_DAY;
    let day31 = issued_at + 31 * NANOS_PER_DAY;
    assert_eq!(tokens.validate_token_at(&mut db, "S", day29).unwrap().email, "alice@example.com");
    assert_eq!(tokens.validate_token_at(&mut db, "S", day30 - 1).unwrap().id, user.id);
    assert_eq!(tokens.validate_token_at(&mut db, "S", day30).unwrap_err(), AuthError::Rejected);
    assert_eq!(tokens.validate_token_at(&mut db, "S", day31).unwrap_err(), AuthError::Rejected);
}

#[test]
fn credential_without_lifetime_never_expires() {
    let tokens = TokenService::new();
    let (mut db, user) = database_with_user("alice@example.com");
    tokens.create_token_at(&mut db, user.id, "cli".to_string(), None, 0, "S".to_string()).unwrap();
    assert_eq!(tokens.validate_token_at(&mut db, "S", i128::MAX).unwrap().id, user.id);
}

#[test]
fn resolve_rejections_are_alike() {
    let tokens = TokenService::new();
    let (mut db, user) = database_with_user("alice@example.com");
    tokens.create_token_at(&mut db, user.id, "a".to_string(), Some(1), 0, "expired".to_string()).unwrap();
    tokens.create_token_at(&mut db, user.id, "b".to_string(), Some(1), 0, "revoked".to_string()).unwrap();
    tokens.revoke_token(&mut db, "revoked");
    let now = 2 * NANOS_PER_DAY;
    let never = tokens.validate_token_at(&mut db, "never issued", now).unwrap_err();
    let revoked = tokens.validate_token_at(&mut db, "revoked", now).unwrap_err();
    let expired = tokens.validate_token_at(&mut db, "expired", now).unwrap_err();
    let empty = tokens.validate_token_at(&mut db, "", now).unwrap_err();
    assert_eq!(never, AuthError::Rejected);
    assert_eq!(revoked, never);
    assert_eq!(expired, never);
    assert_eq!(empty, never);
}

#[test]
fn expired_rows_are_inert_but_still_block_their_hash() {
    let tokens = TokenService::new();
    let (mut db, user) = database_with_user("alice@example.com");
    tokens.create_token_at(&mut db, user.id, "a".to_string(), Some(1), 0, "S".to_string()).unwrap();
    let again = tokens.create_token_at(
        &mut db,
        user.id,
        "a".to_string(),
        Some(1),
        5 * NANOS_PER_DAY,
        "S".to_string(),
    );
    assert_eq!(again.unwrap_err(), AuthError::Conflict(Conflict::SecretCollision));
}

#[test]
fn resolve_stamps_last_use() {
    let tokens = TokenService::new();
    let (mut db, user) = database_with_user("alice@example.com");
    tokens.create_token_at(&mut db, user.id, "a".to_string(), None, 10, "S".to_string()).unwrap();
    let hash = tokens.hash_token("S").unwrap();
    assert_eq!(db.tokens.find_by_hash(&hash, 10).unwrap().last_used_at, None);
    tokens.validate_token_at(&mut db, "S", 77).unwrap();
    let row = db.tokens.find_by_hash(&hash, 78).unwrap();
    assert_eq!(row.last_used_at, Some(77));
    assert_eq!(row.created_at, 10);
    assert_eq!(row.updated_at, 10);
}

#[test]
fn credential_of_a_missing_owner_is_rejected() {
    let tokens = TokenService::new();
    let mut db = Database::new();
    tokens.create_token_at(&mut db, 42, "a".to_string(), None, 0, "S".to_string()).unwrap();
    assert_eq!(tokens.validate_token_at(&mut db, "S", 1).unwrap_err(), AuthError::Rejected);
}

#[test]
fn issuing_an_empty_secret_is_a_validation_error() {
    let tokens = TokenService::new();
    let (mut db, user) = database_with_user("alice@example.com");
    let r = tokens.create_token_at(&mut db, user.id, "a".to_string(), Some(30), 0, String::new());
    assert_eq!(r.unwrap_err(), AuthError::Validation);
}

#[test]
fn issuing_beyond_the_last_instant_is_a_validation_error() {
    let tokens = TokenService::new();
    let (mut db, user) = database_with_user("alice@example.com");
    let r = tokens.create_token_at(&mut db, user.id, "a".to_string(), Some(1), i128::MAX, "S".to_string());
    assert_eq!(r.unwrap_err(), AuthError::Validation);
    assert_eq!(tokens.validate_token_at(&mut db, "S", 0).unwrap_err(), AuthError::Rejected);
}

#[test]
fn create_token_with_the_clock_and_a_drawn_secret() {
    let tokens = TokenService::new();
    let (mut db, user) = database_with_user("alice@example.com");
    let s1 = tokens.create_token(&mut db, user.id, "auth-token".to_string(), Some(30)).unwrap();
    let s2 = tokens.create_token(&mut db, user.id, "auth-token".to_string(), None).unwrap();
    assert_ne!(s1, s2);
    assert_eq!(s1.len(), 77);
    assert_eq!(tokens.validate_token(&mut db, &s1).unwrap().id, user.id);
    assert_eq!(tokens.validate_token(&mut db, &s2).unwrap().id, user.id);
    let hash = tokens.hash_token(&s1).unwrap();
    let row = db.tokens.find_by_hash(&hash, 0).unwrap();
    assert_eq!(row.expires_at, Some(row.created_at + 30 * NANOS_PER_DAY));
    assert!(row.created_at > 1_600_000_000_000_000_000);
    assert_eq!(row.last_used_at.map(|t| t >= row.created_at), Some(true));
}

#[test]
fn expiry_formula() {
    assert_eq!(NANOS_PER_DAY, 86_400_000_000_000);
    assert_eq!(expires_at(0, None), Ok(None));
    assert_eq!(expires_at(5, Some(30)), Ok(Some(2_592_000_000_000_005)));
    assert_eq!(expires_at(5, Some(0)), Ok(Some(5)));
    assert_eq!(expires_at(5, Some(-1)), Ok(Some(5 - 86_400_000_000_000)));
    assert_eq!(expires_at(i128::MAX, Some(0)), Ok(Some(i128::MAX)));
    assert_eq!(expires_at(i128::MAX, Some(1)), Err(AuthError::Validation));
    assert_eq!(expires_at(i128::MIN, Some(-1)), Err(AuthError::Validation));
    assert_eq!(
        expires_at(0, Some(i64::MAX)),
        Ok(Some(9_223_372_036_854_775_807i128 * 86_400_000_000_000))
    );
}

#[test]
fn liveness_is_strict() {
    assert!(is_live(None, i128::MAX));
    assert!(is_live(Some(10), 9));
    assert!(!is_live(Some(10), 10));
    assert!(!is_live(Some(10), 11));
}

#[test]
fn bearer_secret_is_what_follows_the_prefix() {
    assert_eq!(bearer_secret("Bearer abc"), Some("abc"));
    assert_eq!(bearer_secret("Bearer "), Some(""));
    assert_eq!(bearer_secret("Bearer  two"), Some(" two"));
    assert_eq!(bearer_secret("bearer abc"), None);
    assert_eq!(bearer_secret("Bearerabc"), None);
    assert_eq!(bearer_secret("Basic abc"), None);
    assert_eq!(bearer_secret(""), None);
    assert_eq!(bearer_secret(" Bearer abc"), None);
}

#[test]
fn request_without_bearer_is_rejected_before_the_store() {
    for header in [None, Some("Token abc"), Some("Bearer ")] {
        match authenticate(header) {
            Progress::Done(Outcome::Failed(e)) => assert_eq!(e, AuthError::Rejected),
            other => panic!("the store was asked: {:?}", other),
        }
    }
    match authenticate(Some("Bearer abc")) {
        Progress::Ask(_, _) => {},
        other => panic!("the store was not asked: {:?}", other),
    }
}

#[test]
fn request_is_authenticated_by_its_header() {
    let tokens = TokenService::new();
    let (mut db, user) = database_with_user("alice@example.com");
    tokens.create_token_at(&mut db, user.id, "a".to_string(), Some(30), 0, "S".to_string()).unwrap();
    let ok = AuthenticatedUser::from_request_at(&tokens, &mut db, Some("Bearer S"), 1).unwrap();
    assert_eq!(ok.0.email, "alice@example.com");
    let live = AuthenticatedUser::from_request(&tokens, &mut db, Some("Bearer S"));
    assert_eq!(live.unwrap_err(), AuthError::Rejected);
    for header in [None, Some("S"), Some("Bearer T"), Some("Bearer")] {
        let r = AuthenticatedUser::from_request_at(&tokens, &mut db, header, 1);
        assert_eq!(r.unwrap_err(), AuthError::Rejected);
    }
}

#[test]
fn get_user_keeps_id_and_email() {
    let service = UserService::new(TokenService::new());
    let user = User {
        id: 7,
        email: "alice@example.com".to_string(),
        password_hash: "h".to_string(),
        created_at: 1,
        updated_at: 2,
    };
    let response = service.get_user(user).unwrap();
    assert_eq!(response.id, 7);
    assert_eq!(response.email, "alice@example.com");
}
