//! The example POST payload parsed as one unit: both fields validate or the
//! whole form is rejected.

use vstd::prelude::*;

use crate::domain::email::{is_valid_email, Email};
use crate::domain::name::{is_valid_name, name_error_matches, Name};
use crate::domain::parse::{ParseError, Parseable};
use crate::routes::example_post::{parse_post_form, PostExampleForm};

verus! {

/// A validated name and email, parsed together from a submitted form.
pub struct PostExampleData {
    name: Name,
    email: Email,
}

impl PostExampleData {
    /// The characters of the validated name.
    pub closed spec fn spec_name(&self) -> Seq<char> {
        self.name@
    }

    /// The characters of the validated email.
    pub closed spec fn spec_email(&self) -> Seq<char> {
        self.email@
    }

    pub fn name(&self) -> (r: &Name)
        ensures
            r@ == self.spec_name(),
    {
        &self.name
    }

    pub fn email(&self) -> (r: &Email)
        ensures
            r@ == self.spec_email(),
    {
        &self.email
    }
}

impl Parseable<PostExampleForm> for PostExampleData {
    /// All-or-nothing: both fields validate, or the first failure is the
    /// form's error.
    fn parse(input: PostExampleForm) -> (r: Result<Self, ParseError>)
        ensures
            r is Ok <==> is_valid_name(input.name@) && is_valid_email(input.email@),
            r matches Ok(d) ==> d.spec_name() == input.name@ && d.spec_email() == input.email@,
            !is_valid_name(input.name@) ==> (r matches Err(e) && name_error_matches(
                input.name@,
                e,
            )),
            is_valid_name(input.name@) && !is_valid_email(input.email@) ==> (r matches Err(e)
                && e matches ParseError::Invalid(m) && m@ == input.email@
                + " is not a valid email"@),
    {
        match parse_post_form(input) {
            Ok(d) => Ok(PostExampleData { name: d.name, email: d.email }),
            Err(e) => Err(e),
        }
    }
}

} // verus!
