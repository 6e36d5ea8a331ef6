//! Tests for the validated value types: names, emails, usernames and
//! passwords.

use actix_web_template::domain::email::Email;
use actix_web_template::domain::name::Name;
use actix_web_template::domain::parse::{ParseError, Parseable};
use actix_web_template::domain::credentials::{Password, Username};
use actix_web_template::secret::SecretString;

const MAX_LENGTH: usize = 256;
const FORBIDDEN_CHARS: [char; 10] = ['/', '@', '\\', '(', ')', '>', '<', '{', '}', '='];

#[test]
fn long_name_is_invalid() {
    let name = "a".repeat(MAX_LENGTH + 1);
    assert!(Name::parse(name).is_err());
}

#[test]
fn shorter_name_is_valid() {
    let name = "a".repeat(MAX_LENGTH);
    assert!(Name::parse(name).is_ok());
}

#[test]
fn character_limit_correctly_counts_graphemes() {
    let name = "씨".repeat(MAX_LENGTH);
    assert!(Name::parse(name).is_ok());

    let name = "씨".repeat(MAX_LENGTH + 1);
    assert!(Name::parse(name).is_err());
}

#[test]
fn empty_string_is_invalid() {
    let name = "".to_string();
    assert!(Name::parse(name).is_err());

    let name = "  ".to_string();
    assert!(Name::parse(name).is_err());
}

#[test]
fn verboten_chars_are_invalid() {
    for verboten_char in FORBIDDEN_CHARS {
        let name = format!("DAS IST {} VERBOTEN", &verboten_char);
        assert!(Name::parse(name).is_err());
    }
}

#[test]
fn long_name_error_reports_the_limit() {
    let name = "a".repeat(MAX_LENGTH + 1);
    assert!(matches!(Name::parse(name), Err(ParseError::TooLong(256))));
}

#[test]
fn too_long_name_error_is_too_long_even_with_forbidden_chars() {
    let name = "/".repeat(MAX_LENGTH + 1);
    assert!(matches!(Name::parse(name), Err(ParseError::TooLong(256))));
}

#[test]
fn empty_name_error_is_empty() {
    assert!(matches!(Name::parse(" \t ".to_string()), Err(ParseError::Empty)));
}

#[test]
fn valid_name_round_trips() {
    let name = Name::parse("Ursula K. Le Guin".to_string()).unwrap();
    assert_eq!(name.as_ref(), "Ursula K. Le Guin");
}

#[test]
fn forbidden_chars_are_reported_once_each_in_order() {
    let result = Name::parse("a{b}c{d}".to_string());
    match result {
        Err(ParseError::ContainsInvalidChars(chars)) => assert_eq!(chars, "{}"),
        other => panic!("expected ContainsInvalidChars, got {:?}", other.is_ok()),
    }
}

#[test]
fn empty_email_is_invalid() {
    let email = " ".to_string();
    assert!(Email::parse(email).is_err());
}

#[test]
fn email_missing_at_symbol_is_invalid() {
    let email = "johnsmithataol.com".to_string();
    assert!(Email::parse(email).is_err());
}

#[test]
fn email_missing_subject_is_invalid() {
    let email = "@aol.com".to_string();
    assert!(Email::parse(email).is_err());
}

#[test]
fn plain_email_is_valid_and_round_trips() {
    let email = Email::parse("ursula@example.com".to_string()).unwrap();
    assert_eq!(email.as_ref(), "ursula@example.com");
}

#[test]
fn invalid_email_error_names_the_input() {
    match Email::parse("not-an-email".to_string()) {
        Err(ParseError::Invalid(msg)) => {
            assert_eq!(msg, "not-an-email is not a valid email");
        }
        _ => panic!("expected Invalid"),
    }
}

#[test]
fn username_rules_are_enforced_in_order() {
    assert!(matches!(Username::parse("  ".to_string()), Err(ParseError::Empty)));
    assert!(matches!(
        Username::parse("a".repeat(51)),
        Err(ParseError::TooLong(50))
    ));
    match Username::parse("al ice!al!".to_string()) {
        Err(ParseError::ContainsInvalidChars(chars)) => assert_eq!(chars, " !"),
        _ => panic!("expected ContainsInvalidChars"),
    }
    let ok = Username::parse("alice-01_X".to_string()).unwrap();
    assert_eq!(ok.as_ref(), "alice-01_X");
}

#[test]
fn password_rules_are_enforced_in_order() {
    assert!(matches!(
        <Password as Parseable<String>>::parse("shortpw".to_string()),
        Err(ParseError::TooShort(10))
    ));
    assert!(matches!(
        <Password as Parseable<String>>::parse("a".repeat(51)),
        Err(ParseError::TooLong(50))
    ));
    assert!(matches!(
        <Password as Parseable<String>>::parse("with a tab\there".to_string()),
        Err(ParseError::ContainsInvalidChars(_))
    ));
    let ok = <Password as Parseable<String>>::parse("correct horse battery".to_string()).unwrap();
    assert_eq!(ok.as_ref().expose_secret(), "correct horse battery");
}

#[test]
fn secret_wrapped_password_parses_like_a_plain_one() {
    let secret = SecretString::new("correct horse battery".to_string());
    let ok = <Password as Parseable<SecretString>>::parse(secret).unwrap();
    assert_eq!(ok.as_ref().expose_secret(), "correct horse battery");

    let secret = SecretString::new("shortpw".to_string());
    assert!(matches!(
        <Password as Parseable<SecretString>>::parse(secret),
        Err(ParseError::TooShort(10))
    ));
}

#[test]
fn username_boundary_lengths() {
    assert!(Username::parse("a".repeat(50)).is_ok());
    assert!(Username::parse("a".to_string()).is_ok());
}

#[test]
fn password_boundary_lengths() {
    assert!(<Password as Parseable<String>>::parse("a".repeat(10)).is_ok());
    assert!(<Password as Parseable<String>>::parse("a".repeat(50)).is_ok());
    assert!(<Password as Parseable<String>>::parse("a".repeat(9)).is_err());
}
