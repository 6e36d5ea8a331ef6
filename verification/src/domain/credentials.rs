//! Basic-auth credentials: a validated username and password pair, and the
//! decoder that extracts one from an `Authorization` header value.

use base64::Engine;
use vstd::prelude::*;

use crate::domain::parse::{
    offending_chars, has_rejected_char, CharPolicy, ParseError, Parseable,
    collect_offending_chars,
};
use crate::secret::SecretString;
use crate::strings::{has_prefix, is_blank, str_find_char, str_has_prefix, str_is_blank};
use vstd::utf8::{decode_utf8, valid_utf8};

verus! {

/// The limit on a username's length, counted in characters.
pub open spec fn spec_username_max_chars() -> usize {
    50
}

/// The bounds on a password's length, counted in characters.
pub open spec fn spec_password_min_chars() -> usize {
    10
}

pub open spec fn spec_password_max_chars() -> usize {
    50
}

/// A valid username is non-blank, at most 50 characters, and drawn from
/// ASCII alphanumerics, `-` and `_`.
pub open spec fn is_valid_username(s: Seq<char>) -> bool {
    &&& !is_blank(s)
    &&& s.len() <= spec_username_max_chars()
    &&& !has_rejected_char(CharPolicy::UsernameChars, s)
}

/// A valid password has between 10 and 50 characters, all printable ASCII.
pub open spec fn is_valid_password(s: Seq<char>) -> bool {
    &&& s.len() >= spec_password_min_chars()
    &&& s.len() <= spec_password_max_chars()
    &&& !has_rejected_char(CharPolicy::PasswordChars, s)
}

/// The error an invalid username parses to: the first failing check — blank,
/// then length, then character set — picks the error.
pub open spec fn username_error_matches(s: Seq<char>, e: ParseError) -> bool {
    if is_blank(s) {
        e == ParseError::Empty
    } else if s.len() > spec_username_max_chars() {
        e == ParseError::TooLong(spec_username_max_chars())
    } else {
        e matches ParseError::ContainsInvalidChars(cs) && cs@ == offending_chars(
            CharPolicy::UsernameChars,
            s,
        )
    }
}

/// The error an invalid password parses to: the first failing check — too
/// short, then too long, then character set — picks the error.
pub open spec fn password_error_matches(s: Seq<char>, e: ParseError) -> bool {
    if s.len() < spec_password_min_chars() {
        e == ParseError::TooShort(spec_password_min_chars())
    } else if s.len() > spec_password_max_chars() {
        e == ParseError::TooLong(spec_password_max_chars())
    } else {
        e matches ParseError::ContainsInvalidChars(cs) && cs@ == offending_chars(
            CharPolicy::PasswordChars,
            s,
        )
    }
}

pub struct Username(String);

impl View for Username {
    type V = Seq<char>;

    closed spec fn view(&self) -> Seq<char> {
        self.0@
    }
}

impl Parseable<String> for Username {
    /// The only way to obtain a `Username`. A successful parse returns the
    /// input unchanged.
    fn parse(input: String) -> (r: Result<Self, ParseError>)
        ensures
            r is Ok <==> is_valid_username(input@),
            r matches Ok(u) ==> u@ == input@,
            r matches Err(e) ==> username_error_matches(input@, e),
    {
        let is_empty = str_is_blank(input.as_str());
        let is_too_long = input.as_str().unicode_len() > 50;
        let forbidden = collect_offending_chars(CharPolicy::UsernameChars, input.as_str());
        let contains_forbidden_chars = forbidden.as_str().unicode_len() > 0;

        if is_empty {
            Err(ParseError::Empty)
        } else if is_too_long {
            Err(ParseError::TooLong(50))
        } else if contains_forbidden_chars {
            Err(ParseError::ContainsInvalidChars(forbidden))
        } else {
            Ok(Username(input))
        }
    }
}

impl Username {
    /// The validated string itself.
    pub fn as_ref(&self) -> (r: &str)
        ensures
            r@ == self@,
    {
        self.0.as_str()
    }
}

pub struct Password(SecretString);

impl View for Password {
    type V = Seq<char>;

    closed spec fn view(&self) -> Seq<char> {
        self.0@
    }
}

impl Parseable<String> for Password {
    /// The only way to obtain a `Password`. A successful parse wraps the
    /// input, unchanged, in a redacted secret.
    fn parse(input: String) -> (r: Result<Self, ParseError>)
        ensures
            r is Ok <==> is_valid_password(input@),
            r matches Ok(p) ==> p@ == input@,
            r matches Err(e) ==> password_error_matches(input@, e),
    {
        let len = input.as_str().unicode_len();
        let forbidden = collect_offending_chars(CharPolicy::PasswordChars, input.as_str());
        let contains_forbidden_chars = forbidden.as_str().unicode_len() > 0;

        if len < 10 {
            Err(ParseError::TooShort(10))
        } else if len > 50 {
            Err(ParseError::TooLong(50))
        } else if contains_forbidden_chars {
            Err(ParseError::ContainsInvalidChars(forbidden))
        } else {
            Ok(Password(SecretString::new(input)))
        }
    }
}

impl Parseable<SecretString> for Password {
    /// Validates a password that already arrived wrapped as a secret.
    fn parse(input: SecretString) -> (r: Result<Self, ParseError>)
        ensures
            r is Ok <==> is_valid_password(input@),
            r matches Ok(p) ==> p@ == input@,
            r matches Err(e) ==> password_error_matches(input@, e),
    {
        let raw = input.expose_secret().to_owned();
        <Password as Parseable<String>>::parse(raw)
    }
}

impl Password {
    /// The wrapped secret; exposing the text takes a further explicit call.
    pub fn as_ref(&self) -> (r: &SecretString)
        ensures
            r@ == self@,
    {
        &self.0
    }
}

/// A validated username and password, constructed together or rejected
/// together.
pub struct Credentials {
    pub username: Username,
    pub password: Password,
}

/// Why a `Basic` authorization header failed to decode into credentials.
#[derive(Debug)]
pub enum BasicAuthError {
    /// The `Authorization` header was absent.
    MissingHeader,
    /// The header value was not valid UTF-8.
    HeaderNotUtf8,
    /// The header value did not use the `Basic` scheme.
    SchemeNotBasic,
    /// The `Basic` payload was not valid base64.
    InvalidBase64,
    /// The base64-decoded payload was not valid UTF-8.
    CredentialsNotUtf8,
    /// The decoded payload had no `:` separator, so no password was given.
    MissingPassword,
    /// The username part failed validation.
    InvalidUsername(ParseError),
    /// The password part failed validation.
    InvalidPassword(ParseError),
}

impl BasicAuthError {
    /// A descriptive message for each failure; no case panics.
    pub fn message(&self) -> (r: &'static str)
        ensures
            self is MissingHeader ==> r@ == "The 'Authorization' header was missing"@,
            self is HeaderNotUtf8 ==> r@ == "'Authorization' header was not a valid UTF-8 string"@,
            self is SchemeNotBasic ==> r@ == "Authorization scheme was not 'Basic'"@,
            self is InvalidBase64 ==> r@ == "Failed to base64-decode 'Basic' credentials"@,
            self is CredentialsNotUtf8 ==> r@ == "Decoded credentials string is invalid UTF-8"@,
            self is MissingPassword ==> r@ == "Password not provided in 'Basic' auth header."@,
            self is InvalidUsername ==> r@ == "Invalid username format."@,
            self is InvalidPassword ==> r@ == "Invalid password format."@,
    {
        match self {
            BasicAuthError::MissingHeader => "The 'Authorization' header was missing",
            BasicAuthError::HeaderNotUtf8 => "'Authorization' header was not a valid UTF-8 string",
            BasicAuthError::SchemeNotBasic => "Authorization scheme was not 'Basic'",
            BasicAuthError::InvalidBase64 => "Failed to base64-decode 'Basic' credentials",
            BasicAuthError::CredentialsNotUtf8 => "Decoded credentials string is invalid UTF-8",
            BasicAuthError::MissingPassword => "Password not provided in 'Basic' auth header.",
            BasicAuthError::InvalidUsername(_) => "Invalid username format.",
            BasicAuthError::InvalidPassword(_) => "Invalid password format.",
        }
    }
}

/// The username part of a `username:password` string: everything before the
/// first colon.
pub open spec fn username_part(s: Seq<char>) -> Seq<char>
    recommends
        s.contains(':'),
{
    s.subrange(0, s.index_of_first(':')->Some_0)
}

/// The password part of a `username:password` string: everything after the
/// first colon.
pub open spec fn password_part(s: Seq<char>) -> Seq<char>
    recommends
        s.contains(':'),
{
    s.subrange(s.index_of_first(':')->Some_0 + 1, s.len() as int)
}

/// What decoding a `username:password` string must yield: split at the first
/// colon, validate both parts, and report the first failure.
pub open spec fn credentials_outcome_matches(
    s: Seq<char>,
    r: Result<Credentials, BasicAuthError>,
) -> bool {
    &&& (!s.contains(':') ==> r == Err::<Credentials, BasicAuthError>(
        BasicAuthError::MissingPassword,
    ))
    &&& (r is Ok <==> s.contains(':') && is_valid_username(username_part(s))
        && is_valid_password(password_part(s)))
    &&& (r matches Ok(c) ==> c.username@ == username_part(s) && c.password@ == password_part(s))
    &&& (s.contains(':') && !is_valid_username(username_part(s)) ==> (r matches Err(e) && e
        matches BasicAuthError::InvalidUsername(pe) && username_error_matches(
        username_part(s),
        pe,
    )))
    &&& (s.contains(':') && is_valid_username(username_part(s)) && !is_valid_password(
        password_part(s),
    ) ==> (r matches Err(e) && e matches BasicAuthError::InvalidPassword(pe)
        && password_error_matches(password_part(s), pe)))
}

impl Credentials {
    /// Splits a decoded `username:password` string at its first colon and
    /// validates both parts.
    pub fn parse(s: &str) -> (r: Result<Credentials, BasicAuthError>)
        ensures
            credentials_outcome_matches(s@, r),
    {
        let n = s.unicode_len();
        let colon = match str_find_char(s, ':') {
            Some(i) => i,
            None => {
                return Err(BasicAuthError::MissingPassword);
            },
        };
        proof {
            s@.index_of_first_ensures(':');
            assert(s@.index_of_first(':') matches Some(i) && i == colon as int);
        }
        let username_raw = s.substring_char(0, colon).to_owned();
        let password_raw = s.substring_char(colon + 1, n).to_owned();
        let username = match <Username as Parseable<String>>::parse(username_raw) {
            Ok(u) => u,
            Err(e) => {
                return Err(BasicAuthError::InvalidUsername(e));
            },
        };
        let password = match <Password as Parseable<String>>::parse(password_raw) {
            Ok(p) => p,
            Err(e) => {
                return Err(BasicAuthError::InvalidPassword(e));
            },
        };
        Ok(Credentials { username, password })
    }

    /// Decodes `Basic` credentials from the raw bytes of an `Authorization`
    /// header, if one was sent: checks the scheme, base64-decodes the
    /// payload, requires UTF-8, and validates both credential parts. Every
    /// malformed input maps to a `BasicAuthError`; nothing panics.
    pub fn decode_from_basic_authentication_header(header: Option<&[u8]>) -> (r: Result<
        Credentials,
        BasicAuthError,
    >)
        ensures
            header is None ==> r == Err::<Credentials, BasicAuthError>(
                BasicAuthError::MissingHeader,
            ),
            header matches Some(h) ==> {
                if !valid_utf8(h@) {
                    r == Err::<Credentials, BasicAuthError>(BasicAuthError::HeaderNotUtf8)
                } else if !has_prefix(decode_utf8(h@), "Basic "@) {
                    r == Err::<Credentials, BasicAuthError>(BasicAuthError::SchemeNotBasic)
                } else {
                    let payload = decode_utf8(h@).skip("Basic "@.len() as int);
                    match base64_standard_decoded(payload) {
                        None => r == Err::<Credentials, BasicAuthError>(
                            BasicAuthError::InvalidBase64,
                        ),
                        Some(decoded) => if !valid_utf8(decoded) {
                            r == Err::<Credentials, BasicAuthError>(
                                BasicAuthError::CredentialsNotUtf8,
                            )
                        } else {
                            credentials_outcome_matches(decode_utf8(decoded), r)
                        },
                    }
                }
            },
    {
        let header_bytes = match header {
            Some(h) => h,
            None => {
                return Err(BasicAuthError::MissingHeader);
            },
        };
        let header_value = match utf8_decode(header_bytes) {
            Some(s) => s,
            None => {
                return Err(BasicAuthError::HeaderNotUtf8);
            },
        };
        if !str_has_prefix(header_value, "Basic ") {
            return Err(BasicAuthError::SchemeNotBasic);
        }
        proof {
            reveal_strlit("Basic ");
        }
        let encoded = header_value.substring_char(6, header_value.unicode_len());
        assert(encoded@ == decode_utf8(header_bytes@).skip("Basic "@.len() as int));
        let decoded = match base64_decode(encoded) {
            Some(v) => v,
            None => {
                return Err(BasicAuthError::InvalidBase64);
            },
        };
        let credentials_str = match utf8_decode(decoded.as_slice()) {
            Some(s) => s,
            None => {
                return Err(BasicAuthError::CredentialsNotUtf8);
            },
        };
        Credentials::parse(credentials_str)
    }
}

/// The bytes the base64 crate's standard-alphabet engine decodes `s` to:
/// a function of the characters alone; `Some` exactly on well-formed input.
pub uninterp spec fn base64_standard_decoded(s: Seq<char>) -> Option<Seq<u8>>;

/// Relies on the base64 crate's `Engine::decode` with the `STANDARD`
/// (padded, standard-alphabet) engine: a pure function of its input.
#[verifier::external_body]
fn base64_decode(s: &str) -> (r: Option<Vec<u8>>)
    ensures
        r is Some <==> base64_standard_decoded(s@) is Some,
        r matches Some(v) ==> base64_standard_decoded(s@) == Some(v@),
{
    base64::engine::general_purpose::STANDARD.decode(s).ok()
}

/// Relies on std's `str::from_utf8`: succeeds exactly on valid UTF-8 and
/// yields the decoded characters, as vstd's UTF-8 model states them.
#[verifier::external_body]
fn utf8_decode(bytes: &[u8]) -> (r: Option<&str>)
    ensures
        r is Some <==> valid_utf8(bytes@),
        r matches Some(s) ==> s@ == decode_utf8(bytes@),
{
    core::str::from_utf8(bytes).ok()
}

} // verus!
