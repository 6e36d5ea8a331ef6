//! Authentication: password hashing, verification, and credential
//! validation against a stored record.

pub mod password;
