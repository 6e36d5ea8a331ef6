//! The error types route handlers map to HTTP statuses, and the HMAC-signed
//! query-string codec that carries an error message across a redirect so
//! that tampering is detected without server-side session state.

use hmac::{Hmac, KeyInit, Mac};
use sha2::Sha256;
use vstd::prelude::*;

use crate::configuration::HmacSecret;
use crate::domain::parse::ParseError;
use crate::hexstr::{
    hex_encode, hex_decode, hex_of, hex_value_of, is_lower_hex_digit, is_valid_hex,
    lemma_hex_of_round_trip, lemma_lower_hex_injective,
};
use vstd::string::StringExecFns;

verus! {

broadcast use vstd::string::group_string_axioms;

/// What a GET handler can fail with.
#[derive(Debug)]
pub enum GetError {
    InvalidEmail(ParseError),
    EmailNotFound(String),
    UnexpectedError(String),
}

/// What a POST handler can fail with.
#[derive(Debug)]
pub enum PostError {
    InputValidationError(ParseError),
    UnexpectedError(String),
}

/// What credential validation can fail with. `InvalidCredentials` covers both
/// an unknown username and a wrong password, deliberately conflated so the
/// response does not leak which one was wrong.
#[derive(Debug)]
pub enum AuthError {
    InvalidCredentials(String),
    UnexpectedError(String),
}

/// Why an inbound error-tag query failed verification.
#[derive(Debug)]
pub enum HmacVerificationError {
    /// The tag was not a well-formed hex string.
    InvalidTagHex,
    /// The tag did not match the query string under the secret.
    TagMismatch,
}

/// The HMAC-SHA-256 tag over the UTF-8 bytes of `data`, keyed by the UTF-8
/// bytes of `key`; a function of its two inputs alone.
pub uninterp spec fn hmac_sha256_of(key: Seq<char>, data: Seq<char>) -> Seq<u8>;

/// The urlencoding of a string; a function of the characters alone.
pub uninterp spec fn urlencoded_of(s: Seq<char>) -> Seq<char>;

/// Relies on the hmac crate's `Hmac<Sha256>` (`new_from_slice`, `update`,
/// `finalize`): one MAC computation, producing the 32-byte HMAC-SHA-256 tag.
/// `new_from_slice` accepts keys of any length, so the body cannot panic.
#[verifier::external_body]
fn hmac_sha256_tag(key: &str, data: &str) -> (r: Vec<u8>)
    ensures
        r@ == hmac_sha256_of(key@, data@),
        r@.len() == 32,
{
    let mut mac = <Hmac<Sha256> as KeyInit>::new_from_slice(key.as_bytes())
        .expect("HMAC accepts keys of any length");
    mac.update(data.as_bytes());
    mac.finalize().into_bytes().to_vec()
}

/// Relies on the hmac crate's `Mac::verify_slice`: documented as testing, in
/// constant time, whether the given tag equals the computed one — the same
/// value `finalize` yields.
#[verifier::external_body]
fn hmac_sha256_check(key: &str, data: &str, tag: &[u8]) -> (r: bool)
    ensures
        r == (tag@ == hmac_sha256_of(key@, data@)),
{
    let mut mac = <Hmac<Sha256> as KeyInit>::new_from_slice(key.as_bytes())
        .expect("HMAC accepts keys of any length");
    mac.update(data.as_bytes());
    mac.verify_slice(tag).is_ok()
}

/// Relies on the urlencoding crate's `encode`: percent-encodes every byte of
/// the UTF-8 form except ASCII alphanumerics and `-`, `_`, `.`, `~`; a pure
/// function of its input.
#[verifier::external_body]
fn urlencode(s: &str) -> (r: String)
    ensures
        r@ == urlencoded_of(s@),
{
    urlencoding::encode(s).into_owned()
}

/// The query string that carries an error message: `error=<urlencoded msg>`.
pub open spec fn spec_error_query(msg: Seq<char>) -> Seq<char> {
    "error="@ + urlencoded_of(msg)
}

/// The tag bytes for an error query under a secret.
pub open spec fn spec_error_tag(secret: Seq<char>, msg: Seq<char>) -> Seq<u8> {
    hmac_sha256_of(secret, spec_error_query(msg))
}

/// The full signed query string: `error=<enc>&tag=<hex of tag>`.
pub open spec fn spec_tagged_error_query(secret: Seq<char>, msg: Seq<char>) -> Seq<char> {
    spec_error_query(msg) + "&tag="@ + hex_of(spec_error_tag(secret, msg))
}

/// When a tag (as sent in the query) authenticates a query string under a
/// secret: it must be well-formed hex whose bytes are the query's HMAC tag.
pub open spec fn hmac_query_verifies(secret: Seq<char>, tag: Seq<char>, query: Seq<char>) -> bool {
    is_valid_hex(tag) && hex_value_of(tag) == hmac_sha256_of(secret, query)
}

/// Turns an error message into a `error=<urlencoded msg>` query parameter.
pub fn error_msg_to_query_string(error_msg: &String) -> (r: String)
    ensures
        r@ == spec_error_query(error_msg@),
{
    let encoded = urlencode(error_msg.as_str());
    let prefix = String::from_str("error=");
    prefix.concat(encoded.as_str())
}

/// Create a urlencoded error query param for the `error_msg`, tagged with an
/// HMAC tag generated using the `secret`, so the query can later be checked
/// as authentic.
pub fn hmac_tagged_error_query(secret: &HmacSecret, error_msg: String) -> (r: String)
    ensures
        r@ == spec_tagged_error_query(secret@, error_msg@),
{
    let query_string = error_msg_to_query_string(&error_msg);
    let hmac_tag = hmac_sha256_tag(secret.0.expose_secret(), query_string.as_str());
    let tag_hex = hex_encode(hmac_tag.as_slice());
    let tagged = query_string.concat("&tag=").concat(tag_hex.as_str());
    proof {
        assert(tagged@ =~= spec_tagged_error_query(secret@, error_msg@));
    }
    tagged
}

/// Verify that the HMAC `tag` authenticates the `query_string` using the
/// `secret`: the tag is hex-decoded and compared, in constant time, against
/// the HMAC recomputed over the received query string bytes.
pub fn verify_hmac_query(tag: &String, query_string: &String, secret: &HmacSecret) -> (r: Result<
    (),
    HmacVerificationError,
>)
    ensures
        r is Ok <==> hmac_query_verifies(secret@, tag@, query_string@),
        !is_valid_hex(tag@) ==> r == Err::<(), HmacVerificationError>(
            HmacVerificationError::InvalidTagHex,
        ),
        is_valid_hex(tag@) && hex_value_of(tag@) != hmac_sha256_of(secret@, query_string@) ==> r
            == Err::<(), HmacVerificationError>(HmacVerificationError::TagMismatch),
{
    let tag_bytes = match hex_decode(tag.as_str()) {
        Some(v) => v,
        None => {
            return Err(HmacVerificationError::InvalidTagHex);
        },
    };
    if hmac_sha256_check(
        secret.0.expose_secret(),
        query_string.as_str(),
        tag_bytes.as_slice(),
    ) {
        Ok(())
    } else {
        Err(HmacVerificationError::TagMismatch)
    }
}

/// Law: the codec is consistent with itself. The tag that
/// `hmac_tagged_error_query` appends for a message verifies, under the same
/// secret, against the query string that `error_msg_to_query_string` builds
/// for that message.
pub proof fn lemma_error_query_round_trip(secret: Seq<char>, msg: Seq<char>)
    ensures
        hmac_query_verifies(secret, hex_of(spec_error_tag(secret, msg)), spec_error_query(msg)),
{
    lemma_hex_of_round_trip(spec_error_tag(secret, msg));
}

/// Law: a forged tag is rejected. Any lowercase hex tag of the genuine tag's
/// length other than the genuine tag itself fails verification — altering
/// any digit of a tag breaks it.
pub proof fn lemma_altered_tag_fails(secret: Seq<char>, query: Seq<char>, tag: Seq<char>)
    requires
        tag.len() == hex_of(hmac_sha256_of(secret, query)).len(),
        forall|i: int| 0 <= i < tag.len() ==> is_lower_hex_digit(#[trigger] tag[i]),
        tag != hex_of(hmac_sha256_of(secret, query)),
    ensures
        !hmac_query_verifies(secret, tag, query),
{
    let genuine = hex_of(hmac_sha256_of(secret, query));
    lemma_hex_of_round_trip(hmac_sha256_of(secret, query));
    if is_valid_hex(tag) && hex_value_of(tag) == hmac_sha256_of(secret, query) {
        lemma_lower_hex_injective(tag, genuine);
        assert(false);
    }
}

} // verus!
