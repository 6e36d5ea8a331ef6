//! Tests for password hashing, verification, and credential validation.

use actix_web_template::auth::password::{
    compute_password_hash, validate_credentials, verify_password_hash, StoredCredentials,
};
use actix_web_template::domain::credentials::{Credentials, Password, Username};
use actix_web_template::domain::parse::Parseable;
use actix_web_template::routes::error::AuthError;
use actix_web_template::secret::SecretString;
use argon2::password_hash::SaltString;
use argon2::{Algorithm, Argon2, Params, PasswordHasher, Version};

#[test]
fn incorrect_password_does_not_verify() {
    let expected_password = SecretString::new("password".to_string());
    let expected_password_hash = compute_password_hash(&expected_password)
        .expect("Failed to hash expected password.");

    let received_password = SecretString::new("pissword".to_string());

    assert!(verify_password_hash(expected_password_hash, &received_password).is_err());
}

#[test]
fn correct_password_does_verify() {
    let password = SecretString::new("password".to_string());
    let expected_password_hash =
        compute_password_hash(&password).expect("Failed to hash expected password");

    assert!(verify_password_hash(expected_password_hash, &password).is_ok());
}

#[test]
fn malformed_stored_hash_is_an_unexpected_error() {
    let stored = SecretString::new("not a phc string".to_string());
    let password = SecretString::new("password".to_string());
    match verify_password_hash(stored, &password) {
        Err(AuthError::UnexpectedError(_)) => {}
        _ => panic!("expected UnexpectedError"),
    }
}

#[test]
fn verification_accepts_a_hash_computed_independently() {
    // Hash with the argon2 crate directly, under the same fixed parameters
    // the library uses, and make sure the library's verifier accepts it.
    let salt = SaltString::from_b64("c29tZXNhbHRzb21lc2FsdA").unwrap();
    let params = Params::new(15000, 2, 1, None).unwrap();
    let phc = Argon2::new(Algorithm::Argon2id, Version::V0x13, params)
        .hash_password(b"my own password", &salt)
        .unwrap()
        .to_string();

    let stored = SecretString::new(phc);
    let good = SecretString::new("my own password".to_string());
    assert!(verify_password_hash(stored, &good).is_ok());
}

fn parsed_credentials(username: &str, password: &str) -> Credentials {
    Credentials {
        username: Username::parse(username.to_string()).unwrap(),
        password: <Password as Parseable<String>>::parse(password.to_string()).unwrap(),
    }
}

fn stored_for(username: &str, password: &str) -> StoredCredentials {
    let hash = compute_password_hash(&SecretString::new(password.to_string()))
        .expect("Failed to hash password");
    StoredCredentials {
        stored_username: username.to_string(),
        stored_password_hash: hash,
    }
}

#[test]
fn valid_credentials_validate_to_the_username() {
    let credentials = parsed_credentials("alice", "correctpass");
    let stored = stored_for("alice", "correctpass");
    let validated = validate_credentials(credentials, Some(stored)).unwrap();
    assert_eq!(validated, "alice");
}

#[test]
fn wrong_password_and_unknown_user_yield_the_same_error_variant() {
    // A wrong (but well-formed) password for a known user...
    let credentials = parsed_credentials("alice", "wrongpassword");
    let stored = stored_for("alice", "correctpass");
    let wrong_password = validate_credentials(credentials, Some(stored));

    // ...and any password for an unknown user...
    let credentials = parsed_credentials("bob", "whateverpass");
    let unknown_user = validate_credentials(credentials, None);

    // ...fail with the same, indistinguishable variant.
    assert!(matches!(wrong_password, Err(AuthError::InvalidCredentials(_))));
    assert!(matches!(unknown_user, Err(AuthError::InvalidCredentials(_))));
}
