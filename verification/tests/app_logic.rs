//! Tests for the route table, configuration helpers, and the per-route
//! validation steps.

use actix_web_template::configuration::{
    AppSettings, DatabaseSettings, Environment, Settings,
};
use actix_web_template::domain::parse::{ParseError, Parseable};
use actix_web_template::domain::post_form::PostExampleData;
use actix_web_template::routes::error::AuthError;
use actix_web_template::routes::example_get::{example_get_response, GetError, Record};
use actix_web_template::routes::example_post::{parse_post_form, PostExampleForm};
use actix_web_template::routes::login::{parse_login_form, FormData};
use actix_web_template::routes::Endpoint;
use actix_web_template::secret::SecretString;
use actix_web_template::domain::email::Email;

#[test]
fn lib_it_works() {
    println!("hello");
}

#[test]
fn health_check_path_is_stable() {
    assert_eq!(Endpoint::HealthCheck.get_path(), "/health_check");
}

#[test]
fn environment_names_round_trip() {
    assert_eq!(Environment::Local.as_str(), "local");
    assert_eq!(Environment::Prod.as_str(), "prod");
    assert_eq!(Environment::Local.as_filename(), "local.yml");
    assert_eq!(Environment::Prod.as_filename(), "prod.yml");

    assert!(matches!(Environment::parse("local"), Ok(Environment::Local)));
    assert!(matches!(Environment::parse("LOCAL"), Ok(Environment::Local)));
    assert!(matches!(Environment::parse("prod"), Ok(Environment::Prod)));
    assert!(matches!(
        Environment::parse("Production"),
        Ok(Environment::Prod)
    ));
    let err = Environment::parse("staging").unwrap_err();
    assert!(err.starts_with("staging is not a supported environment"));
}

fn settings(host: &str, port: u16) -> Settings {
    Settings {
        database: DatabaseSettings {
            username: "postgres".to_string(),
            password: SecretString::new("password12".to_string()),
            port: 5432,
            host: "127.0.0.1".to_string(),
            database_name: "example".to_string(),
            require_ssl: false,
        },
        app: AppSettings {
            host: host.to_string(),
            port,
            hmac_secret: SecretString::new("super-secret-key".to_string()),
        },
        redis_uri: SecretString::new("redis://127.0.0.1:6379".to_string()),
    }
}

#[test]
fn address_is_host_colon_port() {
    assert_eq!(settings("127.0.0.1", 8000).get_address(), "127.0.0.1:8000");
    assert_eq!(settings("localhost", 0).get_address(), "localhost:0");
    assert_eq!(settings("h", 65535).get_address(), "h:65535");
}

#[test]
fn post_form_validates_both_fields() {
    let ok = parse_post_form(PostExampleForm {
        name: "Ursula".to_string(),
        email: "ursula@example.com".to_string(),
    })
    .unwrap();
    assert_eq!(ok.name.as_ref(), "Ursula");
    assert_eq!(ok.email.as_ref(), "ursula@example.com");

    let bad_name = parse_post_form(PostExampleForm {
        name: "{}".to_string(),
        email: "ursula@example.com".to_string(),
    });
    assert!(matches!(bad_name, Err(ParseError::ContainsInvalidChars(_))));

    let bad_email = parse_post_form(PostExampleForm {
        name: "Ursula".to_string(),
        email: "nonsense".to_string(),
    });
    assert!(matches!(bad_email, Err(ParseError::Invalid(_))));
}

#[test]
fn post_example_data_parses_as_one_unit() {
    let ok = PostExampleData::parse(PostExampleForm {
        name: "Ursula".to_string(),
        email: "ursula@example.com".to_string(),
    })
    .unwrap();
    assert_eq!(ok.name().as_ref(), "Ursula");
    assert_eq!(ok.email().as_ref(), "ursula@example.com");

    assert!(PostExampleData::parse(PostExampleForm {
        name: " ".to_string(),
        email: "ursula@example.com".to_string(),
    })
    .is_err());
}

#[test]
fn example_get_response_reports_missing_rows() {
    let email = Email::parse("ursula@example.com".to_string()).unwrap();

    let found = example_get_response(
        &email,
        Some(Record {
            name: "Ursula".to_string(),
            email: "ursula@example.com".to_string(),
        }),
    )
    .unwrap();
    assert_eq!(found.name, "Ursula");
    assert_eq!(found.email, "ursula@example.com");

    match example_get_response(&email, None) {
        Err(GetError::EmailNotFound(who)) => assert_eq!(who, "ursula@example.com"),
        _ => panic!("expected EmailNotFound"),
    }
}

#[test]
fn login_form_validates_into_credentials() {
    let ok = parse_login_form(FormData {
        username: "alice".to_string(),
        password: SecretString::new("correctpass".to_string()),
    })
    .unwrap();
    assert_eq!(ok.username.as_ref(), "alice");
    assert_eq!(ok.password.as_ref().expose_secret(), "correctpass");

    let bad = parse_login_form(FormData {
        username: "al ice".to_string(),
        password: SecretString::new("correctpass".to_string()),
    });
    assert!(matches!(bad, Err(AuthError::InvalidCredentials(_))));

    let bad = parse_login_form(FormData {
        username: "alice".to_string(),
        password: SecretString::new("short".to_string()),
    });
    assert!(matches!(bad, Err(AuthError::InvalidCredentials(_))));
}
