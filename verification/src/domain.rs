//! The validated value types raw request input must pass through, and the
//! parsing rules they enforce.

pub mod credentials;
pub mod email;
pub mod name;
pub mod parse;
pub mod post_data;
pub mod post_form;
