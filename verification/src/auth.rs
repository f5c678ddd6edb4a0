use vstd::prelude::*;

use crate::domain::UserData;
use crate::error::{AppError, AppErrorView};
use crate::token::{accepted_identity, verify_accepts, TokenCodec};

verus! {

/// Per-request gate in Required mode: absence of a token, and any
/// verification failure, yield `Unauthorized`. The resolved identity is
/// handed to downstream logic as an explicit value, never ambient state.
pub struct AuthUser(pub UserData);

impl AuthUser {
    /// Resolves a verified identity from the raw `Authorization` header
    /// value (no scheme prefix is stripped) at time `now`.
    pub fn from_header(codec: &TokenCodec, header: Option<&str>, now: u64) -> (r: Result<
        AuthUser,
        AppError,
    >)
        ensures
            header is None ==> (r matches Err(e) && e@ == AppErrorView::Unauthorized),
            header matches Some(t) ==> {
                &&& r is Ok <==> verify_accepts(codec.spec_secret(), t@, now)
                &&& r matches Ok(u) ==> u.0.user_id.0@ == accepted_identity(
                    codec.spec_secret(),
                    t@,
                )
                &&& r matches Err(e) ==> e@ == AppErrorView::Unauthorized
            },
    {
        match header {
            None => Err(AppError::Unauthorized),
            Some(token) => match codec.verify(token, now) {
                Ok(user) => Ok(AuthUser(user)),
                Err(_) => Err(AppError::Unauthorized),
            },
        }
    }
}

/// Per-request gate in Optional mode: absence of a token yields no identity
/// and no error; but a present token commits the caller to successful
/// verification: a malformed or expired token still yields `Unauthorized`,
/// never a silent downgrade to "no identity".
pub struct MaybeAuthUser(pub Option<UserData>);

impl MaybeAuthUser {
    pub fn from_header(codec: &TokenCodec, header: Option<&str>, now: u64) -> (r: Result<
        MaybeAuthUser,
        AppError,
    >)
        ensures
            header is None ==> (r matches Ok(u) && u.0 is None),
            header matches Some(t) ==> {
                &&& r is Ok <==> verify_accepts(codec.spec_secret(), t@, now)
                &&& r matches Ok(u) ==> (u.0 matches Some(d) && d.user_id.0@
                    == accepted_identity(codec.spec_secret(), t@))
                &&& r matches Err(e) ==> e@ == AppErrorView::Unauthorized
            },
    {
        match header {
            None => Ok(MaybeAuthUser(None)),
            Some(token) => match codec.verify(token, now) {
                Ok(user) => Ok(MaybeAuthUser(Some(user))),
                Err(_) => Err(AppError::Unauthorized),
            },
        }
    }
}

} // verus!
