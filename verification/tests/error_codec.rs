//! Tests for the HMAC-signed error-query codec and the hex codec under it.

use actix_web_template::configuration::HmacSecret;
use actix_web_template::hexstr::{hex_decode, hex_encode};
use actix_web_template::routes::error::{
    error_msg_to_query_string, hmac_tagged_error_query, verify_hmac_query, HmacVerificationError,
};
use actix_web_template::secret::SecretString;
use hmac::{Hmac, KeyInit, Mac};
use sha2::Sha256;

fn secret(s: &str) -> HmacSecret {
    HmacSecret(SecretString::new(s.to_string()))
}

/// Splits `error=<enc>&tag=<hex>` back into the query part and the tag.
fn split_tagged(tagged: &str) -> (String, String) {
    let marker = "&tag=";
    let at = tagged.find(marker).expect("no tag in tagged query");
    (
        tagged[..at].to_string(),
        tagged[at + marker.len()..].to_string(),
    )
}

#[test]
fn error_message_is_urlencoded_into_the_query() {
    assert_eq!(
        error_msg_to_query_string(&"bad login".to_string()),
        "error=bad%20login"
    );
}

#[test]
fn tagged_query_round_trips_under_the_same_secret() {
    let secret = secret("super-secret-key");
    let tagged = hmac_tagged_error_query(&secret, "bad login".to_string());
    let (query, tag) = split_tagged(&tagged);

    assert_eq!(query, "error=bad%20login");
    assert!(verify_hmac_query(&tag, &query, &secret).is_ok());
}

#[test]
fn tag_matches_an_independent_hmac_computation() {
    let secret = secret("super-secret-key");
    let tagged = hmac_tagged_error_query(&secret, "bad login".to_string());
    let (query, tag) = split_tagged(&tagged);

    let mut mac =
        <Hmac<Sha256> as KeyInit>::new_from_slice(b"super-secret-key").unwrap();
    mac.update(query.as_bytes());
    let expected: Vec<u8> = mac.finalize().into_bytes().to_vec();

    assert_eq!(tag, hex_encode(&expected));
}

#[test]
fn a_different_secret_fails_verification() {
    let tagged = hmac_tagged_error_query(&secret("super-secret-key"), "bad login".to_string());
    let (query, tag) = split_tagged(&tagged);

    let result = verify_hmac_query(&tag, &query, &secret("other-secret-key"));
    assert!(matches!(result, Err(HmacVerificationError::TagMismatch)));
}

#[test]
fn a_mutated_tag_fails_verification() {
    let secret = secret("super-secret-key");
    let tagged = hmac_tagged_error_query(&secret, "bad login".to_string());
    let (query, mut tag) = split_tagged(&tagged);

    // Flip the first hex digit to a different one.
    let first = tag.remove(0);
    let flipped = if first == '0' { '1' } else { '0' };
    tag.insert(0, flipped);

    let result = verify_hmac_query(&tag, &query, &secret);
    assert!(matches!(result, Err(HmacVerificationError::TagMismatch)));
}

#[test]
fn a_tampered_query_string_fails_verification() {
    let secret = secret("super-secret-key");
    let tagged = hmac_tagged_error_query(&secret, "bad login".to_string());
    let (_, tag) = split_tagged(&tagged);

    let tampered_query = "error=all%20good".to_string();
    assert!(verify_hmac_query(&tag, &tampered_query, &secret).is_err());
}

#[test]
fn a_malformed_hex_tag_fails_verification() {
    let secret = secret("super-secret-key");
    let query = error_msg_to_query_string(&"bad login".to_string());

    let result = verify_hmac_query(&"zz-not-hex".to_string(), &query, &secret);
    assert!(matches!(result, Err(HmacVerificationError::InvalidTagHex)));

    let odd_length = "abc".to_string();
    let result = verify_hmac_query(&odd_length, &query, &secret);
    assert!(matches!(result, Err(HmacVerificationError::InvalidTagHex)));
}

#[test]
fn hex_codec_round_trips_and_matches_known_values() {
    assert_eq!(hex_encode(&[]), "");
    assert_eq!(hex_encode(&[0x00, 0x0f, 0xa5, 0xff]), "000fa5ff");

    assert_eq!(hex_decode("000fa5ff"), Some(vec![0x00, 0x0f, 0xa5, 0xff]));
    assert_eq!(hex_decode("000FA5FF"), Some(vec![0x00, 0x0f, 0xa5, 0xff]));
    assert_eq!(hex_decode(""), Some(vec![]));
    assert_eq!(hex_decode("abc"), None);
    assert_eq!(hex_decode("zz"), None);

    let bytes: Vec<u8> = (0u8..=255).collect();
    assert_eq!(hex_decode(&hex_encode(&bytes)), Some(bytes));
}

#[test]
fn empty_error_message_still_round_trips() {
    let secret = secret("super-secret-key");
    let tagged = hmac_tagged_error_query(&secret, String::new());
    let (query, tag) = split_tagged(&tagged);
    assert_eq!(query, "error=");
    assert!(verify_hmac_query(&tag, &query, &secret).is_ok());
}
