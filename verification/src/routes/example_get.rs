//! The pure part of the example GET route: given the validated email and
//! the database lookup's outcome, build the response or the error. The
//! lookup itself is I/O and lives with the binary.

use vstd::prelude::*;

use crate::domain::email::Email;
use crate::domain::parse::ParseError;

verus! {

/// The JSON body of a successful GET.
pub struct ExampleGetResponse {
    pub email: String,
    pub name: String,
}

/// One row of the example table, as plain values.
pub struct Record {
    pub name: String,
    pub email: String,
}

/// What this route can fail with; unlike the crate-wide error enum, the
/// payloads here are exactly what the handler reports.
#[derive(Debug)]
pub enum GetError {
    InvalidEmail(ParseError),
    EmailNotFound(String),
    UnexpectedError(String),
}

/// Get the data associated with an email address once the lookup returned:
/// a missing row is `EmailNotFound` naming the address; a row is returned
/// field for field.
pub fn example_get_response(email: &Email, record: Option<Record>) -> (r: Result<
    ExampleGetResponse,
    GetError,
>)
    ensures
        record is None ==> (r matches Err(e) && e matches GetError::EmailNotFound(m) && m@
            == email@),
        record matches Some(row) ==> (r matches Ok(resp) && resp.name@ == row.name@
            && resp.email@ == row.email@),
{
    match record {
        None => Err(GetError::EmailNotFound(email.as_ref().to_owned())),
        Some(row) => Ok(ExampleGetResponse { name: row.name, email: row.email }),
    }
}

} // verus!
