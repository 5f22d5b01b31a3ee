use auth_rs::auth_service::AuthService;
use auth_rs::database::Database;
use auth_rs::error::{AuthError, Conflict};
use auth_rs::messages::{LoginRequest, RegisterRequest};
use auth_rs::token_service::TokenService;

fn register_request(email: &str, password: &str) -> RegisterRequest {
    RegisterRequest { email: email.to_string(), password: password.to_string() }
}

fn login_request(email: &str, password: &str) -> LoginRequest {
    LoginRequest { email: email.to_string(), password: password.to_string() }
}

#[test]
fn register_login_logout_scenario() {
    let tokens = TokenService::new();
    let auth = AuthService::new(tokens);
    let mut db = Database::new();

    let s1 = auth.register(&mut db, register_request("alice@example.com", "p4ss")).unwrap().token;
    let user = tokens.validate_token(&mut db, &s1).unwrap();
    assert_eq!(user.email, "alice@example.com");

    let wrong = auth.login(&mut db, login_request("alice@example.com", "wrong"));
    assert_eq!(wrong.unwrap_err(), AuthError::Rejected);

    let s2 = auth.login(&mut db, login_request("alice@example.com", "p4ss")).unwrap().token;
    assert_ne!(s1, s2);
    assert_eq!(tokens.validate_token(&mut db, &s1).unwrap().id, user.id);
    assert_eq!(tokens.validate_token(&mut db, &s2).unwrap().id, user.id);

    assert_eq!(auth.logout(&mut db, &s1), Ok(()));
    assert_eq!(tokens.validate_token(&mut db, &s1).unwrap_err(), AuthError::Rejected);
    assert_eq!(tokens.validate_token(&mut db, &s2).unwrap().email, "alice@example.com");
}

#[test]
fn register_then_resolve_yields_the_email() {
    let tokens = TokenService::new();
    let auth = AuthService::new(tokens);
    let mut db = Database::new();
    let response = auth
        .register_at(&mut db, register_request("bob@example.com", "hunter2"), 1_000, "S1".to_string())
        .unwrap();
    assert_eq!(response.token, "S1");
    let user = tokens.validate_token_at(&mut db, "S1", 1_000).unwrap();
    assert_eq!(user.email, "bob@example.com");
    assert_eq!(user.id, 0);
    assert_eq!(user.created_at, 1_000);
    assert_eq!(user.updated_at, 1_000);
    assert_ne!(user.password_hash, "hunter2");
}

#[test]
fn register_twice_is_email_taken_whatever_the_password() {
    let auth = AuthService::new(TokenService::new());
    let mut db = Database::new();
    auth.register_at(&mut db, register_request("carol@example.com", "one"), 5, "first".to_string())
        .unwrap();
    let same = auth.register_at(
        &mut db,
        register_request("carol@example.com", "one"),
        6,
        "second".to_string(),
    );
    assert_eq!(same.unwrap_err(), AuthError::Conflict(Conflict::EmailTaken));
    let other = auth.register_at(
        &mut db,
        register_request("carol@example.com", ""),
        7,
        "third".to_string(),
    );
    assert_eq!(other.unwrap_err(), AuthError::Conflict(Conflict::EmailTaken));
}

#[test]
fn email_is_compared_as_stored() {
    let auth = AuthService::new(TokenService::new());
    let mut db = Database::new();
    auth.register_at(&mut db, register_request("dave@example.com", "pw"), 5, "first".to_string())
        .unwrap();
    let upper = auth.register_at(
        &mut db,
        register_request("Dave@example.com", "pw"),
        6,
        "second".to_string(),
    );
    assert_eq!(upper.unwrap().token, "second");
}

#[test]
fn register_with_empty_password_is_a_validation_error() {
    let auth = AuthService::new(TokenService::new());
    let tokens = TokenService::new();
    let mut db = Database::new();
    let r = auth.register_at(&mut db, register_request("erin@example.com", ""), 5, "S".to_string());
    assert_eq!(r.unwrap_err(), AuthError::Validation);
    let login = auth.login_at(&mut db, login_request("erin@example.com", ""), 6, "T".to_string());
    assert_eq!(login.unwrap_err(), AuthError::Rejected);
    assert_eq!(tokens.validate_token_at(&mut db, "S", 5).unwrap_err(), AuthError::Rejected);
}

#[test]
fn register_with_a_stored_secret_keeps_no_user() {
    let auth = AuthService::new(TokenService::new());
    let mut db = Database::new();
    auth.register_at(&mut db, register_request("frank@example.com", "pw"), 5, "same".to_string())
        .unwrap();
    let r = auth.register_at(&mut db, register_request("grace@example.com", "pw"), 6, "same".to_string());
    assert_eq!(r.unwrap_err(), AuthError::Conflict(Conflict::SecretCollision));
    assert!(db.users.find_by_email("grace@example.com").is_none());
    let again = auth
        .register_at(&mut db, register_request("grace@example.com", "pw"), 7, "fresh".to_string())
        .unwrap();
    assert_eq!(again.token, "fresh");
    assert_eq!(db.users.find_by_email("grace@example.com").unwrap().id, 2);
}

#[test]
fn login_rejections_are_alike() {
    let auth = AuthService::new(TokenService::new());
    let mut db = Database::new();
    auth.register_at(&mut db, register_request("heidi@example.com", "right"), 5, "S1".to_string())
        .unwrap();
    let wrong_password =
        auth.login_at(&mut db, login_request("heidi@example.com", "wrong"), 6, "S2".to_string());
    let no_such_email =
        auth.login_at(&mut db, login_request("nobody@example.com", "right"), 6, "S3".to_string());
    let a = wrong_password.unwrap_err();
    let b = no_such_email.unwrap_err();
    assert_eq!(a, AuthError::Rejected);
    assert_eq!(a, b);
    assert_eq!(format!("{:?}", a), format!("{:?}", b));
}

#[test]
fn login_issues_one_more_credential() {
    let tokens = TokenService::new();
    let auth = AuthService::new(tokens);
    let mut db = Database::new();
    auth.register_at(&mut db, register_request("ivan@example.com", "pw"), 10, "S1".to_string())
        .unwrap();
    let s2 = auth
        .login_at(&mut db, login_request("ivan@example.com", "pw"), 20, "S2".to_string())
        .unwrap()
        .token;
    assert_eq!(s2, "S2");
    let hash = tokens.hash_token("S2").unwrap();
    let row = db.tokens.find_by_hash(&hash, 20).unwrap();
    assert_eq!(row.id, 1);
    assert_eq!(row.user_id, 0);
    assert_eq!(row.name, "auth-token");
    assert_eq!(row.token, hash);
    assert_eq!(row.created_at, 20);
    assert_eq!(row.expires_at, Some(20 + 2_592_000_000_000_000));
    assert_eq!(row.last_used_at, None);
    assert_eq!(tokens.validate_token_at(&mut db, "S1", 30).unwrap().email, "ivan@example.com");
}

#[test]
fn login_with_a_stored_secret_is_a_collision() {
    let auth = AuthService::new(TokenService::new());
    let mut db = Database::new();
    auth.register_at(&mut db, register_request("judy@example.com", "pw"), 10, "S1".to_string())
        .unwrap();
    let r = auth.login_at(&mut db, login_request("judy@example.com", "pw"), 20, "S1".to_string());
    assert_eq!(r.unwrap_err(), AuthError::Conflict(Conflict::SecretCollision));
}

#[test]
fn logout_twice_is_no_error() {
    let tokens = TokenService::new();
    let auth = AuthService::new(tokens);
    let mut db = Database::new();
    auth.register_at(&mut db, register_request("kate@example.com", "pw"), 10, "S1".to_string())
        .unwrap();
    assert_eq!(auth.logout(&mut db, "S1"), Ok(()));
    assert_eq!(tokens.validate_token_at(&mut db, "S1", 11).unwrap_err(), AuthError::Rejected);
    assert_eq!(auth.logout(&mut db, "S1"), Ok(()));
    assert_eq!(auth.logout(&mut db, "never issued"), Ok(()));
    assert_eq!(auth.logout(&mut db, ""), Ok(()));
    assert_eq!(db.users.find_by_email("kate@example.com").unwrap().id, 0);
}
