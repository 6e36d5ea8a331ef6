//! The validation step of the example POST route: the raw web form, and its
//! conversion into validated `PostData`. Reading the form off the wire and
//! writing the row are I/O and live with the binary.

use vstd::prelude::*;

use crate::domain::email::{is_valid_email, Email};
use crate::domain::name::{is_valid_name, name_error_matches, Name};
use crate::domain::parse::{ParseError, Parseable};
use crate::domain::post_data::PostData;

verus! {

/// The raw fields of the example POST form, exactly as submitted.
pub struct PostExampleForm {
    pub name: String,
    pub email: String,
}

/// Validates a submitted form into `PostData`: the name is checked first,
/// then the email, and the first failure is reported.
pub fn parse_post_form(form: PostExampleForm) -> (r: Result<PostData, ParseError>)
    ensures
        r is Ok <==> is_valid_name(form.name@) && is_valid_email(form.email@),
        r matches Ok(d) ==> d.name@ == form.name@ && d.email@ == form.email@,
        !is_valid_name(form.name@) ==> (r matches Err(e) && name_error_matches(form.name@, e)),
        is_valid_name(form.name@) && !is_valid_email(form.email@) ==> (r matches Err(e)
            && e matches ParseError::Invalid(m) && m@ == form.email@ + " is not a valid email"@),
{
    let name = match <Name as Parseable<String>>::parse(form.name) {
        Ok(n) => n,
        Err(e) => {
            return Err(e);
        },
    };
    let email = match <Email as Parseable<String>>::parse(form.email) {
        Ok(m) => m,
        Err(e) => {
            return Err(e);
        },
    };
    Ok(PostData { name, email })
}

} // verus!
