use api_core::auth::{AuthUser, MaybeAuthUser};
use api_core::domain::{Password, UserData, UserID, UserLoginInfo, Username};
use api_core::error::AppError;
use api_core::password::{hash_password, verify_password};
use api_core::token::TokenCodec;
use api_core::users::{login_finish, login_lookup, LoginPayload};
use api_core::validate::ValidatePayload;

fn codec() -> TokenCodec {
    TokenCodec::new(b"a-strong-secret".to_vec())
}

fn signed_token(c: &TokenCodec, id: &str, now: u64) -> String {
    c.sign(&UserData { user_id: UserID(id.to_string()) }, now).unwrap()
}

#[test]
fn required_guard_rejects_missing_header() {
    let c = codec();
    let r = AuthUser::from_header(&c, None, 1_000);
    assert!(matches!(r, Err(AppError::Unauthorized)));
}

#[test]
fn required_guard_accepts_valid_token() {
    let c = codec();
    let token = signed_token(&c, "user-123", 1_000);
    let user = AuthUser::from_header(&c, Some(&token), 2_000).unwrap();
    assert_eq!(user.0.user_id.0, "user-123");
}

#[test]
fn required_guard_rejects_garbage_token() {
    let c = codec();
    let r = AuthUser::from_header(&c, Some("not-a-token"), 1_000);
    assert!(matches!(r, Err(AppError::Unauthorized)));
}

#[test]
fn optional_guard_without_header_yields_no_identity_and_no_error() {
    let c = codec();
    let r = MaybeAuthUser::from_header(&c, None, 1_000).unwrap();
    assert!(r.0.is_none());
}

#[test]
fn optional_guard_with_garbage_token_is_unauthorized_never_none() {
    let c = codec();
    let r = MaybeAuthUser::from_header(&c, Some("garbage"), 1_000);
    assert!(matches!(r, Err(AppError::Unauthorized)));
}

#[test]
fn optional_guard_with_expired_token_is_unauthorized_never_none() {
    let c = codec();
    let token = signed_token(&c, "user-123", 1_000);
    let long_after = 1_000 + 10 * api_core::token::TOKEN_TTL_SECONDS;
    let r = MaybeAuthUser::from_header(&c, Some(&token), long_after);
    assert!(matches!(r, Err(AppError::Unauthorized)));
}

#[test]
fn optional_guard_with_valid_token_yields_identity() {
    let c = codec();
    let token = signed_token(&c, "user-123", 1_000);
    let r = MaybeAuthUser::from_header(&c, Some(&token), 2_000).unwrap();
    assert_eq!(r.0.unwrap().user_id.0, "user-123");
}

#[test]
fn password_hash_round_trip() {
    let raw = Password("pass12359823".to_string());
    let hash = hash_password(&raw).unwrap();
    assert_ne!(hash.0, raw.0);
    assert!(verify_password(&raw, &hash).unwrap());
    let wrong = Password("another-password".to_string());
    assert!(!verify_password(&wrong, &hash).unwrap());
}

#[test]
fn unparseable_stored_hash_is_an_internal_failure() {
    // A stored hash that is not a PHC string yields an error, never a
    // quiet "does not match".
    let raw = Password("pass12359823".to_string());
    let broken = Password("not-a-phc-hash".to_string());
    assert!(matches!(verify_password(&raw, &broken), Err(AppError::Internal)));
}

#[test]
fn login_failed_on_invalid_json_data() {
    // An unknown username and a wrong password both yield InvalidCredentials,
    // rendered as 400 with the fixed message.
    let unknown_user = login_lookup(None).unwrap_err();
    let (status, body) = unknown_user.render();
    assert_eq!(status, 400);
    assert_eq!(body.message, "Invalid login or password");

    let c = codec();
    let user = UserLoginInfo {
        id: UserID("user-123".to_string()),
        password_hash: Password("unused".to_string()),
    };
    let wrong_password = login_finish(&c, &user, false, 1_000).unwrap_err();
    let (status, body) = wrong_password.render();
    assert_eq!(status, 400);
    assert_eq!(body.message, "Invalid login or password");
}

#[test]
fn success_login_returns_header_token() {
    let c = codec();
    let raw = Password("pass12359823".to_string());
    let stored = hash_password(&raw).unwrap();
    let user = UserLoginInfo { id: UserID("user-123".to_string()), password_hash: stored };

    let looked_up = login_lookup(Some(user)).unwrap();
    let valid = verify_password(&raw, &looked_up.password_hash).unwrap();
    let token = login_finish(&c, &looked_up, valid, 1_000).unwrap();
    assert!(!token.is_empty());

    // The token round-trips to the identity that logged in.
    let verified = c.verify(&token, 2_000).unwrap();
    assert_eq!(verified.user_id.0, "user-123");
}

#[test]
fn login_payload_validates_like_register_fields() {
    let ok = LoginPayload {
        username: Username("username".to_string()),
        password: Password("pass12359823".to_string()),
    };
    assert!(ok.validate().is_ok());

    let bad = LoginPayload {
        username: Username("non_existing_username".to_string()),
        password: Password("invalid_password".to_string()),
    };
    // Both fields are well-formed strings; validation passes. Credentials
    // are only judged against the store, later.
    assert!(bad.validate().is_ok());
}
