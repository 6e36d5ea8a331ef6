//! The validation step of the login POST route: the raw form fields become
//! validated `Credentials`, or the attempt is rejected as invalid
//! credentials. Looking up the stored hash and building the redirect live
//! with the binary.

use vstd::prelude::*;

use crate::domain::credentials::{
    is_valid_password, is_valid_username, Credentials, Password, Username,
};
use crate::domain::parse::Parseable;
use crate::routes::error::AuthError;
use crate::secret::SecretString;
use vstd::string::StringExecFns;

verus! {

/// The raw fields of the login form, exactly as submitted; the password
/// arrives already wrapped as a secret.
pub struct FormData {
    pub username: String,
    pub password: SecretString,
}

/// Validates the login form's fields into `Credentials`. Any malformed field
/// is already an `InvalidCredentials` failure — malformed input never
/// reaches the password check.
pub fn parse_login_form(form: FormData) -> (r: Result<Credentials, AuthError>)
    ensures
        r is Ok <==> is_valid_username(form.username@) && is_valid_password(form.password@),
        r matches Ok(c) ==> c.username@ == form.username@ && c.password@ == form.password@,
        r matches Err(e) ==> e is InvalidCredentials,
{
    let username = match <Username as Parseable<String>>::parse(form.username) {
        Ok(u) => u,
        Err(_) => {
            return Err(
                AuthError::InvalidCredentials(String::from_str("Invalid username format.")),
            );
        },
    };
    let password = match <Password as Parseable<SecretString>>::parse(form.password) {
        Ok(p) => p,
        Err(_) => {
            return Err(
                AuthError::InvalidCredentials(String::from_str("Invalid password format.")),
            );
        },
    };
    Ok(Credentials { username, password })
}

} // verus!
