//! A string wrapper for secrets. It derives no formatting traits, so a secret
//! can never end up in a log by accident; reading the value takes an explicit
//! call to `expose_secret`.

use vstd::prelude::*;

verus! {

pub struct SecretString(String);

impl View for SecretString {
    type V = Seq<char>;

    closed spec fn view(&self) -> Seq<char> {
        self.0@
    }
}

impl SecretString {
    pub fn new(value: String) -> (r: SecretString)
        ensures
            r@ == value@,
    {
        SecretString(value)
    }

    /// Deliberately explicit: the only way to read the wrapped value.
    pub fn expose_secret(&self) -> (r: &str)
        ensures
            r@ == self@,
    {
        self.0.as_str()
    }
}

} // verus!
