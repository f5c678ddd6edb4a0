use vstd::prelude::*;

use crate::domain::{Email, Password, Username};
use crate::validate::{ErrView, ValidationError};

verus! {

/// The UTF-8 byte length of a string's characters: the username and
/// password rules bound bytes, so a multi-byte character counts by its
/// encoding.
pub open spec fn utf8_len(s: Seq<char>) -> nat {
    vstd::utf8::encode_utf8(s).len()
}

/// Rule: a username is 3 to 50 bytes long.
pub open spec fn username_ok(s: Seq<char>) -> bool {
    3 <= utf8_len(s) <= 50
}

/// Rule: a password is 8 to 50 bytes long.
pub open spec fn password_ok(s: Seq<char>) -> bool {
    8 <= utf8_len(s) <= 50
}

/// Name for `validator::validate_email`'s judgement: whether a string is a
/// well-formed email address, a function of the characters alone.
pub uninterp spec fn email_ok(s: Seq<char>) -> bool;

/// The failure `validate_username` collects.
pub open spec fn username_err() -> ErrView {
    ErrView { field: "username"@, code: "invalid_username"@, message: None }
}

/// The failure `validate_password` collects.
pub open spec fn password_err() -> ErrView {
    ErrView { field: "password"@, code: "invalid_password"@, message: None }
}

/// The failure `validate_email` collects.
pub open spec fn email_err() -> ErrView {
    ErrView {
        field: "email"@,
        code: "invalid_email"@,
        message: Some("Provided Invalid email"@),
    }
}

/// Relies on `validator::validate_email`: holds the address against the
/// email grammar; the verdict depends on the input characters alone.
#[verifier::external_body]
fn check_email(address: &str) -> (r: bool)
    ensures
        r == email_ok(address@),
{
    validator::validate_email(address)
}

pub fn validate_username(username: &Username) -> (r: Result<(), ValidationError>)
    ensures
        r is Ok <==> username_ok(username.0@),
        r matches Err(e) ==> e@ == username_err(),
{
    let len = username.0.as_str().as_bytes().len();
    if len < 3 || len > 50 {
        Err(ValidationError::new("username", "invalid_username"))
    } else {
        Ok(())
    }
}

pub fn validate_password(password: &Password) -> (r: Result<(), ValidationError>)
    ensures
        r is Ok <==> password_ok(password.0@),
        r matches Err(e) ==> e@ == password_err(),
{
    let len = password.0.as_str().as_bytes().len();
    if len < 8 || len > 50 {
        Err(ValidationError::new("password", "invalid_password"))
    } else {
        Ok(())
    }
}

pub fn validate_email(email: &Email) -> (r: Result<(), ValidationError>)
    ensures
        r is Ok <==> email_ok(email.0@),
        r matches Err(e) ==> e@ == email_err(),
{
    if check_email(email.0.as_str()) {
        Ok(())
    } else {
        Err(ValidationError::with_message("email", "invalid_email", "Provided Invalid email"))
    }
}

} // verus!
