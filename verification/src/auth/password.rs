//! Password hashing and verification with Argon2id, and credential
//! validation against a stored record. Validation always runs a full
//! hash-and-verify cycle — against a dummy hash when the username is
//! unknown — so an observer cannot tell an unknown username from a wrong
//! password by timing.

use argon2::password_hash::SaltString;
use argon2::{Algorithm, Argon2, Params, PasswordHash, PasswordHasher, PasswordVerifier, Version};
use vstd::prelude::*;

use crate::domain::credentials::Credentials;
use crate::routes::error::AuthError;
use crate::secret::SecretString;
use vstd::string::StringExecFns;

verus! {

broadcast use vstd::string::group_string_axioms;

/// The fixed Argon2 cost parameters: memory in KiB, iterations, parallelism.
pub const HASH_MEMORY_KIB: u32 = 15000;

pub const HASH_ITERATIONS: u32 = 2;

pub const HASH_PARALLELISM: u32 = 1;

/// The longest password, in characters, that hashing promises to accept:
/// its UTF-8 form (at most four bytes per character) then stays within
/// argon2's limit of 2^32 - 1 password bytes.
pub const MAX_HASHED_PASSWORD_CHARS: usize = 0x3FFF_FFFF;

/// Whether a string is a well-formed PHC hash string; a function of the
/// characters alone (what argon2's `PasswordHash::new` accepts).
pub uninterp spec fn phc_string_valid(hash: Seq<char>) -> bool;

/// Whether a password matches a PHC hash string: recomputing the digest over
/// the password with the algorithm, parameters and salt embedded in the
/// string reproduces the embedded digest. A function of the two strings
/// alone.
pub uninterp spec fn phc_matches(hash: Seq<char>, password: Seq<char>) -> bool;

/// The three ways an Argon2 verification can come out.
enum VerifyOutcome {
    /// The stored hash string failed to parse as a PHC string.
    MalformedHash,
    /// The recomputed digest did not match.
    Mismatch,
    /// The password matches the hash.
    Verified,
}

/// Relies on argon2's `PasswordHash::new` and
/// `Argon2::default().verify_password`: parsing accepts exactly well-formed
/// PHC strings, and verification recomputes the digest under the parameters
/// and salt embedded in the hash and compares in constant time. Both are
/// functions of the two strings alone.
#[verifier::external_body]
fn argon2_verify(expected_hash: &str, candidate: &str) -> (r: VerifyOutcome)
    ensures
        r is MalformedHash <==> !phc_string_valid(expected_hash@),
        phc_string_valid(expected_hash@) ==> (r is Verified == phc_matches(
            expected_hash@,
            candidate@,
        )),
{
    match PasswordHash::new(expected_hash) {
        Err(_) => VerifyOutcome::MalformedHash,
        Ok(parsed) => match Argon2::default().verify_password(candidate.as_bytes(), &parsed) {
            Ok(()) => VerifyOutcome::Verified,
            Err(_) => VerifyOutcome::Mismatch,
        },
    }
}

/// Relies on argon2's `hash_password` with a salt from
/// `SaltString::generate`: whatever salt is drawn, a returned PHC string
/// embeds algorithm, version, parameters, salt and digest, so it parses back
/// (`PasswordHash::new` of `to_string` round-trips) and re-verifying the
/// same password against it recomputes the same digest and succeeds. Nothing
/// more is assumed of the randomness.
///
/// Under the library's fixed costs the call cannot fail: `Params::new`
/// accepts them (memory of 15000 blocks is at least 8 per lane, iterations
/// at least 1, parallelism within 1..=0xFFFFFF), the generated 16-byte salt
/// is within the 8..=2^32-1 salt bounds, the default 32-byte output is
/// within its bounds, and a password of at most 2^32 - 1 UTF-8 bytes passes
/// the input check — hence the success clause.
#[verifier::external_body]
fn argon2_hash(password: &str, m_cost: u32, t_cost: u32, p_cost: u32) -> (r: Option<String>)
    ensures
        r matches Some(h) ==> phc_string_valid(h@) && phc_matches(h@, password@),
        m_cost == HASH_MEMORY_KIB && t_cost == HASH_ITERATIONS && p_cost == HASH_PARALLELISM
            && password@.len() <= MAX_HASHED_PASSWORD_CHARS ==> r is Some,
{
    let salt = SaltString::generate(&mut rand::thread_rng());
    let params = Params::new(m_cost, t_cost, p_cost, None).ok()?;
    let hashed = Argon2::new(Algorithm::Argon2id, Version::V0x13, params).hash_password(
        password.as_bytes(),
        &salt,
    ).ok()?;
    Some(hashed.to_string())
}

/// Hashes a password with a fresh random salt under the fixed cost
/// parameters. Succeeds for every password whose UTF-8 form argon2 accepts —
/// in particular for every validated `Password` — and the returned PHC
/// string embeds everything needed to verify later: the same password
/// verifies against it.
pub fn compute_password_hash(password: &SecretString) -> (r: Result<SecretString, AuthError>)
    ensures
        r matches Ok(h) ==> phc_string_valid(h@) && phc_matches(h@, password@),
        password@.len() <= MAX_HASHED_PASSWORD_CHARS ==> r is Ok,
        r matches Err(e) ==> e is UnexpectedError,
{
    match argon2_hash(
        password.expose_secret(),
        HASH_MEMORY_KIB,
        HASH_ITERATIONS,
        HASH_PARALLELISM,
    ) {
        Some(h) => Ok(SecretString::new(h)),
        None => Err(
            AuthError::UnexpectedError(String::from_str("Failed to hash password")),
        ),
    }
}

/// Verifies a password against a stored PHC hash string. Succeeds exactly
/// when the hash is well-formed and the password matches; a mismatch is an
/// `InvalidCredentials` error and a malformed stored hash an
/// `UnexpectedError`, distinguished only in the error, never by panicking.
pub fn verify_password_hash(expected_password_hash: SecretString, received_password: &SecretString)
    -> (r: Result<(), AuthError>)
    ensures
        r is Ok <==> phc_string_valid(expected_password_hash@) && phc_matches(
            expected_password_hash@,
            received_password@,
        ),
        !phc_string_valid(expected_password_hash@) ==> (r matches Err(e)
            && e is UnexpectedError),
        phc_string_valid(expected_password_hash@) && !phc_matches(
            expected_password_hash@,
            received_password@,
        ) ==> (r matches Err(e) && e is InvalidCredentials),
{
    match argon2_verify(expected_password_hash.expose_secret(), received_password.expose_secret()) {
        VerifyOutcome::Verified => Ok(()),
        VerifyOutcome::Mismatch => Err(
            AuthError::InvalidCredentials(String::from_str("Invalid password!")),
        ),
        VerifyOutcome::MalformedHash => Err(
            AuthError::UnexpectedError(
                String::from_str("Failed to parse PHC string from stored password hash."),
            ),
        ),
    }
}

/// A username paired with its stored password hash, as read from storage:
/// a read-only snapshot for one authentication attempt.
pub struct StoredCredentials {
    pub stored_username: String,
    pub stored_password_hash: SecretString,
}

/// Validates credentials against the stored record for the claimed username,
/// or against a freshly computed dummy hash when no record exists. The dummy
/// cycle always runs before "unknown username" is reported, so the two
/// failure cases are not distinguishable by timing; both surface as
/// `InvalidCredentials`.
pub fn validate_credentials(credentials: Credentials, stored: Option<StoredCredentials>) -> (r:
    Result<String, AuthError>)
    ensures
        stored matches Some(sc) ==> {
            if phc_string_valid(sc.stored_password_hash@) && phc_matches(
                sc.stored_password_hash@,
                credentials.password@,
            ) {
                r matches Ok(u) && u@ == sc.stored_username@
            } else if phc_string_valid(sc.stored_password_hash@) {
                r matches Err(e) && e is InvalidCredentials
            } else {
                r matches Err(e) && e is UnexpectedError
            }
        },
        stored is None ==> (r matches Err(e) && e is InvalidCredentials),
{
    let mut known_username: Option<String> = None;
    let stored_hash: SecretString = match stored {
        Some(sc) => {
            known_username = Some(sc.stored_username);
            sc.stored_password_hash
        },
        None => {
            let dummy = SecretString::new(String::from_str("default_password"));
            proof {
                reveal_strlit("default_password");
                assert("default_password"@.len() == 16);
            }
            match compute_password_hash(&dummy) {
                Ok(h) => h,
                Err(e) => {
                    return Err(e);
                },
            }
        },
    };

    match verify_password_hash(stored_hash, credentials.password.as_ref()) {
        Ok(()) => (),
        Err(e) => {
            return Err(e);
        },
    }

    match known_username {
        Some(u) => Ok(u),
        None => Err(AuthError::InvalidCredentials(String::from_str("Unknown username"))),
    }
}

} // verus!
