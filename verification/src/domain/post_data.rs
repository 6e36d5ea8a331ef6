//! The validated payload of the example POST route.

use vstd::prelude::*;

use crate::domain::email::Email;
use crate::domain::name::Name;

verus! {

/// A validated name and email, ready to be written to storage.
pub struct PostData {
    pub name: Name,
    pub email: Email,
}

} // verus!
