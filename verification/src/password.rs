use vstd::prelude::*;

use crate::domain::Password;
use crate::error::{AppError, AppErrorView};
use argon2::password_hash::rand_core::OsRng;
use argon2::password_hash::SaltString;
use argon2::{Argon2, PasswordHash, PasswordHasher, PasswordVerifier};

verus! {

/// Names the outcome of argon2 password verification: whether a raw
/// password matches a PHC hash string. The salt is part of the hash string,
/// so the outcome is a function of the two strings alone.
pub uninterp spec fn password_matches(raw: Seq<char>, hash: Seq<char>) -> bool;

/// Names the success of `PasswordHash::new`: whether a string parses as a
/// PHC hash string, a function of its characters alone.
pub uninterp spec fn phc_hash(s: Seq<char>) -> bool;

/// Relies on `argon2::Argon2::hash_password`, salted freshly through
/// `SaltString::generate`: whichever salt is drawn, the produced string is
/// the rendering of a parsed PHC hash, so it parses back, and it verifies
/// against the password that was hashed. Hashing is CPU-heavy; the caller
/// runs it off the request-serving execution context.
#[verifier::external_body]
pub fn hash_password(password: &Password) -> (r: Result<Password, AppError>)
    ensures
        r matches Ok(h) ==> password_matches(password.0@, h.0@) && phc_hash(h.0@),
        r matches Err(e) ==> e@ == AppErrorView::Internal,
{
    let salt = SaltString::generate(&mut OsRng);
    Argon2::default()
        .hash_password(password.0.as_bytes(), &salt)
        .map(|p| Password(p.to_string()))
        .map_err(|_| AppError::Internal)
}

/// Relies on `argon2::Argon2::verify_password`, on a hash parsed by
/// `PasswordHash::new`: a verdict comes back exactly when the stored hash
/// parses as a PHC string, and it equals the named argon2 outcome. A stored
/// hash that does not parse is an opaque internal failure. Verification is
/// CPU-heavy; the caller runs it off the request-serving execution context.
#[verifier::external_body]
pub fn verify_password(raw_password: &Password, hash: &Password) -> (r: Result<bool, AppError>)
    ensures
        r is Ok <==> phc_hash(hash.0@),
        r matches Ok(b) ==> b == password_matches(raw_password.0@, hash.0@),
        r matches Err(e) ==> e@ == AppErrorView::Internal,
{
    let parsed = match PasswordHash::new(hash.0.as_str()) {
        Ok(parsed) => parsed,
        Err(_) => return Err(AppError::Internal),
    };
    Ok(Argon2::default().verify_password(raw_password.0.as_bytes(), &parsed).is_ok())
}

} // verus!
