use api_core::articles::{subscribe_check, translate_subscription_failure};
use api_core::domain::UserID;
use api_core::error::AppError;
use api_core::translate::{on_constraint, trace_db, with_unique_violation, DbFailure};

fn unique_violation(constraint: &str) -> DbFailure {
    DbFailure::Database { constraint: Some(constraint.to_string()), unique_violation: true }
}

#[test]
fn unique_violation_maps_to_duplicated_user() {
    // The register flow maps any unique violation to DuplicatedUser.
    let r: Result<u32, DbFailure> = Err(unique_violation("users_username_key"));
    let (mapped, trace) = with_unique_violation(r, AppError::DuplicatedUser, "Failed create new user");
    assert!(matches!(mapped, Err(AppError::DuplicatedUser)));
    // The underlying failure is traced exactly once, at translation.
    let trace = trace.unwrap();
    assert_eq!(trace.context, "Failed create new user");
}

#[test]
fn non_unique_failure_collapses_to_internal() {
    let r: Result<u32, DbFailure> = Err(DbFailure::Other);
    let (mapped, trace) = with_unique_violation(r, AppError::DuplicatedUser, "Failed create new user");
    assert!(matches!(mapped, Err(AppError::Internal)));
    assert!(trace.is_some());
}

#[test]
fn unmapped_constraint_maps_to_internal_with_one_trace() {
    // A failure on a constraint other than the target never partially
    // matches: it collapses to Internal, with exactly one trace record.
    let r: Result<u32, DbFailure> = Err(unique_violation("users_email_key"));
    let (mapped, trace) = on_constraint(r, "users_username_key", AppError::DuplicatedUser);
    assert!(matches!(mapped, Err(AppError::Internal)));
    assert!(trace.is_some());

    // And the rendering of Internal adds no detail of the constraint.
    let (status, body) = mapped.unwrap_err().render();
    assert_eq!(status, 500);
    assert_eq!(body.message, "Internal Server Error");
}

#[test]
fn matched_constraint_maps_exactly() {
    let r: Result<u32, DbFailure> = Err(unique_violation("users_username_key"));
    let (mapped, trace) = on_constraint(r, "users_username_key", AppError::DuplicatedUser);
    assert!(matches!(mapped, Err(AppError::DuplicatedUser)));
    assert!(trace.is_none());
}

#[test]
fn constraint_lookup_is_case_sensitive() {
    let r: Result<u32, DbFailure> = Err(unique_violation("Users_Username_Key"));
    let (mapped, _) = on_constraint(r, "users_username_key", AppError::DuplicatedUser);
    assert!(matches!(mapped, Err(AppError::Internal)));
}

#[test]
fn ok_results_pass_through_untouched() {
    let r: Result<u32, DbFailure> = Ok(7);
    let (kept, trace) = trace_db(r, "context");
    assert_eq!(kept.unwrap(), 7);
    assert!(trace.is_none());

    let r: Result<u32, DbFailure> = Ok(7);
    let (kept, trace) = on_constraint(r, "any", AppError::DuplicatedUser);
    assert_eq!(kept.unwrap(), 7);
    assert!(trace.is_none());

    let r: Result<u32, DbFailure> = Ok(7);
    let (kept, trace) = with_unique_violation(r, AppError::DuplicatedUser, "ctx");
    assert_eq!(kept.unwrap(), 7);
    assert!(trace.is_none());
}

#[test]
fn trace_db_keeps_the_failure_and_records_it() {
    let r: Result<u32, DbFailure> = Err(DbFailure::Other);
    let (kept, trace) = trace_db(r, "Failed to fetch user login data");
    assert!(matches!(kept, Err(DbFailure::Other)));
    assert_eq!(trace.unwrap().context, "Failed to fetch user login data");
}

#[test]
fn fail_on_creating_article_with_duplicated_title() {
    let r: Result<u32, DbFailure> = Err(unique_violation("articles_title_key"));
    let (mapped, _) = with_unique_violation(r, AppError::DuplicatedArticle, "Duplicated article title");
    let err = mapped.unwrap_err();
    let (status, body) = err.render();
    assert_eq!(status, 400);
    assert_eq!(body.message, "Article with given title already exists");
}

#[test]
fn fail_to_subscribe_to_myself() {
    let me = UserID("11111111-2222-3333-4444-555555555555".to_string());
    let err = subscribe_check(&me, &me).unwrap_err();
    let (status, body) = err.render();
    assert_eq!(status, 400);
    assert_eq!(body.message, "User cannot subscribe to himself");
}

#[test]
fn fail_to_subscribe_to_user_that_does_not_exist() {
    let target = UserID("99999999-8888-7777-6666-555555555555".to_string());
    let db: Result<(), DbFailure> = Err(DbFailure::Database {
        constraint: Some("fk_author_id".to_string()),
        unique_violation: false,
    });
    let (mapped, trace) = translate_subscription_failure(db, &target);
    let err = mapped.unwrap_err();
    let (status, body) = err.render();
    assert_eq!(status, 400);
    assert_eq!(
        body.message,
        "Given author id does not exist: 99999999-8888-7777-6666-555555555555"
    );
    assert!(trace.is_none());
}

#[test]
fn successfully_subscribed_twice() {
    // Subscribing to another user twice: the statement reports no failure
    // (the insert is a no-op on conflict), so nothing is translated.
    let me = UserID("1".to_string());
    let other = UserID("2".to_string());
    assert!(subscribe_check(&me, &other).is_ok());
    let db: Result<(), DbFailure> = Ok(());
    let (mapped, trace) = translate_subscription_failure(db, &other);
    assert!(mapped.is_ok());
    assert!(trace.is_none());
}
