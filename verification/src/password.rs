//! Salted one-way hashing of passwords, refresh secrets and single-use
//! secrets, and the check of a secret against a stored digest.

use vstd::prelude::*;
use argon2::password_hash::{PasswordHasher, PasswordVerifier};
use crate::errors::{AppError, AppErrorView};

verus! {

/// What Argon2 says of `secret` against the stored `digest`: `None` where
/// the digest is not a well-formed hash string, else whether it matches.
pub uninterp spec fn argon2_verdict(secret: Seq<char>, digest: Seq<char>) -> Option<bool>;

/// Whether `secret` is accepted against `digest`.
pub open spec fn secret_matches(secret: Seq<char>, digest: Seq<char>) -> bool {
    argon2_verdict(secret, digest) == Some(true)
}

/// The error of the `password-hash` crate.
#[verifier::external_type_specification]
#[verifier::external_body]
pub struct ExPasswordHashError(argon2::password_hash::Error);

/// `Argon2::hash_password` with the default parameters and a salt drawn by
/// `SaltString::generate`, written as a hash string. The digest differs from
/// call to call; whenever one comes back, the same secret verifies against it.
#[verifier::external_body]
fn argon2_hash(secret: &str) -> (r: Result<String, argon2::password_hash::Error>)
    ensures
        r matches Ok(digest) ==> argon2_verdict(secret@, digest@) == Some(true),
{
    let salt = argon2::password_hash::SaltString::generate(
        &mut argon2::password_hash::rand_core::OsRng,
    );
    argon2::Argon2::default().hash_password(secret.as_bytes(), &salt).map(|h| h.to_string())
}

/// `PasswordHash::new` on the digest, then `Argon2::verify_password`: an
/// error where the digest does not parse, else whether the secret verifies.
/// The outcome is named `argon2_verdict`.
#[verifier::external_body]
fn argon2_verify(secret: &str, digest: &str) -> (r: Result<bool, argon2::password_hash::Error>)
    ensures
        match r {
            Ok(b) => argon2_verdict(secret@, digest@) == Some(b),
            Err(_) => argon2_verdict(secret@, digest@) is None,
        },
{
    let parsed = argon2::password_hash::PasswordHash::new(digest)?;
    Ok(argon2::Argon2::default().verify_password(secret.as_bytes(), &parsed).is_ok())
}

/// What `verify_password` returns for a secret and a stored digest.
pub open spec fn verify_outcome(secret: Seq<char>, digest: Seq<char>) -> Result<
    bool,
    AppErrorView,
> {
    match argon2_verdict(secret, digest) {
        Some(b) => Ok(b),
        None => Err(AppErrorView::InternalError),
    }
}

pub struct PasswordService;

impl PasswordService {
    /// Hashes `password` with a fresh salt. The digest carries the salt, so
    /// `verify_password` needs nothing else. A failure of the hasher is an
    /// internal error.
    pub fn hash_password(password: &str) -> (r: Result<String, AppError>)
        ensures
            match r {
                Ok(digest) => secret_matches(password@, digest@),
                Err(e) => e@ == AppErrorView::InternalError,
            },
    {
        match argon2_hash(password) {
            Ok(digest) => Ok(digest),
            Err(_) => Err(AppError::InternalError),
        }
    }

    /// Checks `password` against a stored digest. A mismatch is `Ok(false)`;
    /// only a digest that is not a hash string is an error.
    pub fn verify_password(password: &str, password_hash: &str) -> (r: Result<bool, AppError>)
        ensures
            match r {
                Ok(b) => verify_outcome(password@, password_hash@) == Ok::<bool, AppErrorView>(b),
                Err(e) => verify_outcome(password@, password_hash@) == Err::<bool, AppErrorView>(
                    e@,
                ),
            },
    {
        match argon2_verify(password, password_hash) {
            Ok(b) => Ok(b),
            Err(_) => Err(AppError::InternalError),
        }
    }
}

} // verus!
