use auth_rs::auth_service::AuthService;
use auth_rs::error::AuthError;
use auth_rs::hasher::{SecretClass, SecretHasher};
use auth_rs::secret::{generate_secret, join_secret};
use auth_rs::token_service::TokenService;

#[test]
fn hash_is_deterministic_and_not_the_secret() {
    let hasher = SecretHasher::new(SecretClass::Token);
    let a = hasher.hash("secret").unwrap();
    let b = hasher.hash("secret").unwrap();
    assert_eq!(a, b);
    assert_ne!(a, "secret");
    assert!(a.starts_with("$argon2id$v=19$m=19456,t=2,p=1$dW5pcXVlX3NhbHRfZm9yX3Rva2Vucw$"));
    assert_eq!(a.len(), "$argon2id$v=19$m=19456,t=2,p=1$dW5pcXVlX3NhbHRfZm9yX3Rva2Vucw$".len() + 43);
    assert_ne!(hasher.hash("Secret").unwrap(), a);
}

#[test]
fn classes_have_different_salts() {
    let password = SecretHasher::new(SecretClass::Password).hash("secret").unwrap();
    let token = SecretHasher::new(SecretClass::Token).hash("secret").unwrap();
    assert!(password.starts_with("$argon2id$v=19$m=19456,t=2,p=1$dW5pcXVlX3NhbHRfZm9yX3Bhc3N3b3Jk$"));
    assert_ne!(password, token);
    assert_eq!(SecretHasher::new(SecretClass::Password).salt(), "unique_salt_for_password");
    assert_eq!(SecretHasher::new(SecretClass::Token).salt(), "unique_salt_for_tokens");
}

#[test]
fn empty_secret_is_a_validation_error() {
    assert_eq!(SecretHasher::new(SecretClass::Token).hash(""), Err(AuthError::Validation));
    assert_eq!(SecretHasher::new(SecretClass::Password).hash(""), Err(AuthError::Validation));
    assert_eq!(TokenService::new().hash_token(""), Err(AuthError::Validation));
}

#[test]
fn verify_accepts_the_hashed_secret_only() {
    let hasher = SecretHasher::new(SecretClass::Password);
    let stored = hasher.hash("p4ss").unwrap();
    assert!(hasher.verify("p4ss", &stored));
    assert!(!hasher.verify("p4sS", &stored));
    assert!(!hasher.verify("", &stored));
}

#[test]
fn verify_of_a_malformed_hash_is_false() {
    let hasher = SecretHasher::new(SecretClass::Password);
    assert!(!hasher.verify("p4ss", "p4ss"));
    assert!(!hasher.verify("p4ss", ""));
    assert!(!hasher.verify("", ""));
}

#[test]
fn verify_a_known_hash() {
    let hasher = SecretHasher::new(SecretClass::Password);
    let stored = "$argon2i$v=19$m=4096,t=3,p=1$c29tZXNhbHQ$iWh06vD8Fy27wf9npn6FXWiCX4K6pW6Ue1Bnzz07Z8A";
    assert!(hasher.verify("password", stored));
    assert!(!hasher.verify("passwore", stored));
}

#[test]
fn services_hash_by_class() {
    let tokens = TokenService::new();
    let auth = AuthService::new(tokens);
    let token_hash = tokens.hash_token("abc").unwrap();
    let password_hash = auth.hash_password("abc").unwrap();
    assert_eq!(token_hash, SecretHasher::new(SecretClass::Token).hash("abc").unwrap());
    assert_ne!(token_hash, password_hash);
    assert!(auth.verify_password("abc", &password_hash));
    assert!(!auth.verify_password("abd", &password_hash));
}

#[test]
fn join_secret_puts_the_separator_between() {
    assert_eq!(join_secret("id", "tail"), "id_tail");
    assert_eq!(join_secret("", ""), "_");
}

#[test]
fn generated_secret_has_the_fixed_structure() {
    let secret = generate_secret();
    let chars: Vec<char> = secret.chars().collect();
    assert_eq!(chars.len(), 77);
    for (i, c) in chars.iter().enumerate() {
        if i == 8 || i == 13 || i == 18 || i == 23 {
            assert_eq!(*c, '-');
        } else if i < 36 {
            assert!(c.is_ascii_digit() || ('a'..='f').contains(c));
        } else if i == 36 {
            assert_eq!(*c, '_');
        } else {
            assert!(c.is_ascii_alphanumeric());
        }
    }
    assert_eq!(chars[14], '4');
}

#[test]
fn generated_secrets_differ() {
    let tokens = TokenService::new();
    let a = tokens.generate_token();
    let b = tokens.generate_token();
    assert_ne!(a, b);
    assert_ne!(a[..36], b[..36]);
    assert_ne!(a[37..], b[37..]);
}

#[test]
fn hash_needs_no_escaping() {
    for class in [SecretClass::Password, SecretClass::Token] {
        let hash = SecretHasher::new(class).hash("p4ss \"quoted\" \\ <tag> é").unwrap();
        assert!(hash.chars().all(|c| c.is_ascii_alphanumeric() || "$=,+/".contains(c)));
    }
}
