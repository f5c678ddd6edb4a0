use vstd::prelude::*;

use crate::domain::{Email, Password, UserData, UserID, UserLoginInfo, Username};
use crate::error::{AppError, AppErrorView};
use crate::rules::{
    email_err, email_ok, password_err, password_ok, username_err, username_ok, validate_email,
    validate_password, validate_username,
};
use crate::token::{decoded_claims, signed_token, TokenCodec, TOKEN_TTL_SECONDS};
use crate::validate::{ErrView, ValidatePayload, ValidationError};

verus! {

/// Body of the register endpoint.
#[derive(Debug)]
pub struct RegisterPayload {
    pub username: Username,
    pub password: Password,
    pub email: Email,
}

impl ValidatePayload for RegisterPayload {
    open spec fn spec_errors(&self) -> Seq<ErrView> {
        (if !username_ok(self.username.0@) {
            seq![username_err()]
        } else {
            Seq::empty()
        }) + (if !password_ok(self.password.0@) {
            seq![password_err()]
        } else {
            Seq::empty()
        }) + (if !email_ok(self.email.0@) {
            seq![email_err()]
        } else {
            Seq::empty()
        })
    }

    fn validate(&self) -> (r: Result<(), Vec<ValidationError>>) {
        let mut v: Vec<ValidationError> = Vec::new();
        if let Err(e) = validate_username(&self.username) {
            v.push(e);
        }
        if let Err(e) = validate_password(&self.password) {
            v.push(e);
        }
        if let Err(e) = validate_email(&self.email) {
            v.push(e);
        }
        proof {
            assert(v.deep_view() =~= self.spec_errors());
        }
        if v.len() == 0 {
            Ok(())
        } else {
            Err(v)
        }
    }
}

/// Body of the login endpoint.
#[derive(Debug)]
pub struct LoginPayload {
    pub username: Username,
    pub password: Password,
}

impl ValidatePayload for LoginPayload {
    open spec fn spec_errors(&self) -> Seq<ErrView> {
        (if !username_ok(self.username.0@) {
            seq![username_err()]
        } else {
            Seq::empty()
        }) + (if !password_ok(self.password.0@) {
            seq![password_err()]
        } else {
            Seq::empty()
        })
    }

    fn validate(&self) -> (r: Result<(), Vec<ValidationError>>) {
        let mut v: Vec<ValidationError> = Vec::new();
        if let Err(e) = validate_username(&self.username) {
            v.push(e);
        }
        if let Err(e) = validate_password(&self.password) {
            v.push(e);
        }
        proof {
            assert(v.deep_view() =~= self.spec_errors());
        }
        if v.len() == 0 {
            Ok(())
        } else {
            Err(v)
        }
    }
}

/// The decision after the login lookup: an unknown username is rejected as
/// `InvalidCredentials` before any password work is spent on it.
pub fn login_lookup(user: Option<UserLoginInfo>) -> (r: Result<UserLoginInfo, AppError>)
    ensures
        user is None ==> (r matches Err(e) && e@ == AppErrorView::InvalidCredentials),
        user matches Some(u) ==> r == Ok::<UserLoginInfo, AppError>(u),
{
    match user {
        None => Err(AppError::InvalidCredentials),
        Some(u) => Ok(u),
    }
}

/// The decision after the password check: a password that does not match is
/// `InvalidCredentials`; a matching one is always signed into a token
/// carrying the user's identity, expiring `TOKEN_TTL_SECONDS` after `now`,
/// which `verify` under the same secret accepts until then and resolves
/// back to this user.
pub fn login_finish(
    codec: &TokenCodec,
    user: &UserLoginInfo,
    password_valid: bool,
    now: u64,
) -> (r: Result<String, AppError>)
    requires
        now + TOKEN_TTL_SECONDS <= u64::MAX,
    ensures
        !password_valid ==> (r matches Err(e) && e@ == AppErrorView::InvalidCredentials),
        password_valid ==> r is Ok,
        password_valid ==> (r matches Ok(t) ==> {
            &&& t@ == signed_token(
                codec.spec_secret(),
                (now + TOKEN_TTL_SECONDS) as u64,
                user.id.0@,
            )
            &&& decoded_claims(
                codec.spec_secret(),
                t@,
                (now + TOKEN_TTL_SECONDS) as u64,
                user.id.0@,
            )
        }),
{
    if !password_valid {
        return Err(AppError::InvalidCredentials);
    }
    let identity = UserData { user_id: UserID(user.id.0.clone()) };
    match codec.sign(&identity, now) {
        Ok(t) => Ok(t),
        Err(_) => Err(AppError::Internal),
    }
}

/// Law: a payload failing two independent field rules carries exactly two
/// failures; aggregation never stops at the first. Shown for a register
/// body whose username and email both break their rules while the password
/// passes its own.
pub proof fn lemma_two_failures_aggregate(p: RegisterPayload)
    ensures
        (!username_ok(p.username.0@) && password_ok(p.password.0@) && !email_ok(p.email.0@))
            ==> p.spec_errors() =~= seq![username_err(), email_err()],
{
}

} // verus!
