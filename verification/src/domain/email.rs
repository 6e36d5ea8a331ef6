//! An email address, validated on construction against the standard (HTML5)
//! email syntax.

use validator::ValidateEmail;
use vstd::prelude::*;

use crate::domain::parse::{ParseError, Parseable};

verus! {

/// Whether `s` is a syntactically valid email address under the standard
/// rules the validator crate implements; a function of the characters alone.
pub uninterp spec fn is_valid_email(s: Seq<char>) -> bool;

/// Relies on the validator crate's `ValidateEmail::validate_email` for
/// strings: a pure syntax check. The stated failure cases are read off its
/// source: it rejects the empty string, any string without `@`, and any
/// string whose local part (the text before the last `@`) is empty or itself
/// contains `@` — so a leading `@` always fails.
#[verifier::external_body]
fn validate_email_syntax(s: &str) -> (r: bool)
    ensures
        r == is_valid_email(s@),
        s@.len() == 0 ==> !r,
        !s@.contains('@') ==> !r,
        s@.len() > 0 && s@[0] == '@' ==> !r,
{
    s.validate_email()
}

pub struct Email(String);

impl View for Email {
    type V = Seq<char>;

    closed spec fn view(&self) -> Seq<char> {
        self.0@
    }
}

impl Parseable<String> for Email {
    /// The only way to obtain an `Email`: succeeds exactly on syntactically
    /// valid addresses and returns the input unchanged.
    fn parse(input: String) -> (r: Result<Self, ParseError>)
        ensures
            r is Ok <==> is_valid_email(input@),
            r matches Ok(email) ==> email@ == input@,
            !is_valid_email(input@) ==> (r matches Err(e) && e matches ParseError::Invalid(m)
                && m@ == input@ + " is not a valid email"@),
            input@.len() == 0 ==> r is Err,
            !input@.contains('@') ==> r is Err,
            input@.len() > 0 && input@[0] == '@' ==> r is Err,
    {
        if validate_email_syntax(input.as_str()) {
            Ok(Email(input))
        } else {
            let message = input.concat(" is not a valid email");
            Err(ParseError::Invalid(message))
        }
    }
}

impl Email {
    /// The validated string itself.
    pub fn as_ref(&self) -> (r: &str)
        ensures
            r@ == self@,
    {
        self.0.as_str()
    }
}

} // verus!
