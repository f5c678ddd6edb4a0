use api_core::error::AppError;
use api_core::response::{DataResponse, ErrorResponse};
use api_core::validate::ValidationError;

#[test]
fn status_codes_follow_the_table() {
    assert_eq!(AppError::ValidationFailed(vec![ValidationError::new("f", "c")]).status_code(), 400);
    assert_eq!(AppError::MalformedInput.status_code(), 400);
    assert_eq!(AppError::Unauthorized.status_code(), 401);
    assert_eq!(AppError::InvalidCredentials.status_code(), 400);
    assert_eq!(AppError::DuplicatedUser.status_code(), 400);
    assert_eq!(AppError::DuplicatedArticle.status_code(), 400);
    assert_eq!(AppError::NotFound("missing".to_string()).status_code(), 404);
    assert_eq!(AppError::BadRequest("bad".to_string()).status_code(), 400);
    assert_eq!(AppError::Internal.status_code(), 500);
}

#[test]
fn internal_renders_fixed_literal() {
    let (status, body) = AppError::Internal.render();
    assert_eq!(status, 500);
    assert_eq!(body.message, "Internal Server Error");
    assert!(body.data.is_none());
}

#[test]
fn validation_failure_renders_field_lines() {
    let err = AppError::ValidationFailed(vec![
        ValidationError::new("username", "invalid_username"),
        ValidationError::new("password", "invalid_password"),
    ]);
    let (status, body) = err.render();
    assert_eq!(status, 400);
    assert_eq!(body.message, "Input validation error");
    assert_eq!(
        body.data.unwrap(),
        vec!["username: invalid_username", "password: invalid_password"]
    );
}

#[test]
fn caller_supplied_messages_pass_through() {
    let (status, body) = AppError::NotFound("No such article".to_string()).render();
    assert_eq!(status, 404);
    assert_eq!(body.message, "No such article");
    assert!(body.data.is_none());

    let (status, body) = AppError::BadRequest("Given author id does not exist: 42".to_string())
        .render();
    assert_eq!(status, 400);
    assert_eq!(body.message, "Given author id does not exist: 42");
}

#[test]
fn fixed_messages_per_kind() {
    let (_, body) = AppError::Unauthorized.render();
    assert_eq!(body.message, "Unauthorized");
    let (_, body) = AppError::InvalidCredentials.render();
    assert_eq!(body.message, "Invalid login or password");
    let (_, body) = AppError::DuplicatedUser.render();
    assert_eq!(body.message, "User with given username or email already exists");
    let (_, body) = AppError::DuplicatedArticle.render();
    assert_eq!(body.message, "Article with given title already exists");
    let (_, body) = AppError::MalformedInput.render();
    assert_eq!(body.message, "Malformed input");
}

#[test]
fn envelope_constructors() {
    let plain: ErrorResponse<()> = ErrorResponse::message("oops".to_string());
    assert_eq!(plain.message, "oops");
    assert!(plain.data.is_none());

    let with_data = ErrorResponse::with_data("bad".to_string(), vec![1u32, 2]);
    assert_eq!(with_data.message, "bad");
    assert_eq!(with_data.data.unwrap(), vec![1, 2]);

    let wrapped = DataResponse::new("payload".to_string());
    assert_eq!(wrapped.data, "payload");
}

#[test]
fn envelope_message_is_never_empty() {
    // Every kind renders a non-empty message, including the pass-through ones.
    let kinds = vec![
        AppError::ValidationFailed(vec![ValidationError::new("f", "c")]),
        AppError::MalformedInput,
        AppError::Unauthorized,
        AppError::InvalidCredentials,
        AppError::DuplicatedUser,
        AppError::DuplicatedArticle,
        AppError::NotFound("gone".to_string()),
        AppError::BadRequest("bad".to_string()),
        AppError::Internal,
    ];
    for kind in kinds {
        let (_, body) = kind.render();
        assert!(!body.message.is_empty());
    }
}
