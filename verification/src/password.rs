//! Credential hashing: argon2id behind trusted calls, with the length
//! rules enforced before any hashing happens.

use vstd::prelude::*;
use crate::errors::ErrorMessage;

verus! {

const MAX_PASSWORD_LENGTH: usize = 64;

const MIN_PASSWORD_LENGTH: usize = 8;

/// What verifying `password` against the PHC string `hash` yields: a
/// match or mismatch, a malformed hash (`Err(true)`), or an internal
/// failure (`Err(false)`). A function of its arguments alone.
pub uninterp spec fn argon2_outcome(password: Seq<u8>, hash: Seq<char>) -> Result<bool, bool>;

/// Relies on argon2's PasswordHash parsing and Argon2::verify_password
/// (argon2id, version 0x13): the outcome depends on the password and the
/// hash string alone, since the hash string carries salt and parameters.
#[verifier::external_body]
fn argon2_verify(password: &[u8], hash: &str) -> (r: Result<bool, bool>)
    ensures
        r == argon2_outcome(password@, hash@),
{
    let parsed = match argon2::PasswordHash::new(hash) {
        Ok(p) => p,
        Err(_) => {
            return Err(true);
        },
    };
    match argon2::PasswordVerifier::verify_password(&argon2::Argon2::default(), password, &parsed) {
        Ok(()) => Ok(true),
        Err(argon2::password_hash::Error::Password) => Ok(false),
        Err(_) => Err(false),
    }
}

/// Relies on argon2's PasswordHasher::hash_password (argon2id, version
/// 0x13, 4 MiB, three passes, one lane) with a fresh random salt:
/// nothing is promised of the hash string itself, but every hash it
/// returns verifies against the password it was computed from, since the
/// hash string embeds the salt and parameters the verifier reuses.
#[verifier::external_body]
fn argon2_hash(password: &[u8]) -> (r: Result<String, ()>)
    ensures
        match r {
            Ok(h) => argon2_outcome(password@, h@) == Ok::<bool, bool>(true),
            Err(_) => true,
        },
{
    let salt = argon2::password_hash::SaltString::generate(
        &mut argon2::password_hash::rand_core::OsRng,
    );
    let params = match argon2::Params::new(4096, 3, 1, Some(32)) {
        Ok(p) => p,
        Err(_) => return Err(()),
    };
    let hasher = argon2::Argon2::new(argon2::Algorithm::Argon2id, argon2::Version::V0x13, params);
    match argon2::PasswordHasher::hash_password(&hasher, password, &salt) {
        Ok(h) => Ok(h.to_string()),
        Err(_) => Err(()),
    }
}

/// Hashes a password with a fresh salt. The password must be non-empty
/// and between eight and sixty-four bytes; the returned hash verifies
/// against the password.
pub fn hash_password(password: &[u8]) -> (r: Result<String, ErrorMessage>)
    ensures
        password@.len() == 0 ==> r == Err::<String, _>(ErrorMessage::EmptyPassword),
        password@.len() > 64 ==> r == Err::<String, _>(
            ErrorMessage::ExceededMaxPasswordLength(password@.len() as usize),
        ),
        0 < password@.len() < 8 ==> r == Err::<String, _>(
            ErrorMessage::PasswordTooShort(password@.len() as usize),
        ),
        r matches Ok(h) ==> 8 <= password@.len() <= 64 && argon2_outcome(password@, h@) == Ok::<
            bool,
            bool,
        >(true),
        8 <= password@.len() <= 64 ==> (r is Ok || r == Err::<String, _>(
            ErrorMessage::HashingError,
        )),
{
    if password.len() == 0 {
        return Err(ErrorMessage::EmptyPassword);
    }
    if password.len() > MAX_PASSWORD_LENGTH {
        return Err(ErrorMessage::ExceededMaxPasswordLength(password.len()));
    }
    if password.len() < MIN_PASSWORD_LENGTH {
        return Err(ErrorMessage::PasswordTooShort(password.len()));
    }
    match argon2_hash(password) {
        Ok(h) => Ok(h),
        Err(_) => Err(ErrorMessage::HashingError),
    }
}

/// Verifies a password against a stored hash, after the same length
/// rules; a malformed hash and an internal failure map to their own
/// errors.
pub fn compare(password: &[u8], hashed_password: &String) -> (r: Result<bool, ErrorMessage>)
    ensures
        password@.len() == 0 ==> r == Err::<bool, _>(ErrorMessage::EmptyPassword),
        password@.len() > 64 ==> r == Err::<bool, _>(
            ErrorMessage::ExceededMaxPasswordLength(password@.len() as usize),
        ),
        0 < password@.len() < 8 ==> r == Err::<bool, _>(
            ErrorMessage::PasswordTooShort(password@.len() as usize),
        ),
        8 <= password@.len() <= 64 ==> r == (match argon2_outcome(password@, hashed_password@) {
            Ok(b) => Ok(b),
            Err(true) => Err(ErrorMessage::InvalidHashFormat),
            Err(false) => Err(ErrorMessage::HashingError),
        }),
{
    if password.len() == 0 {
        return Err(ErrorMessage::EmptyPassword);
    }
    if password.len() > MAX_PASSWORD_LENGTH {
        return Err(ErrorMessage::ExceededMaxPasswordLength(password.len()));
    }
    if password.len() < MIN_PASSWORD_LENGTH {
        return Err(ErrorMessage::PasswordTooShort(password.len()));
    }
    match argon2_verify(password, hashed_password.as_str()) {
        Ok(b) => Ok(b),
        Err(true) => Err(ErrorMessage::InvalidHashFormat),
        Err(false) => Err(ErrorMessage::HashingError),
    }
}

} // verus!
