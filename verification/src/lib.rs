//! The verified core of a small web backend: validated value types for
//! request input, a basic-auth credential decoder, password hashing and
//! verification, and an HMAC-signed error-message codec for redirects.

pub mod auth;
pub mod configuration;
pub mod domain;
pub mod hexstr;
pub mod routes;
pub mod secret;
pub mod strings;
