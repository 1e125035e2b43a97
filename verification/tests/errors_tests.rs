use session_auth::errors::AppError;

fn all() -> Vec<(AppError, u16, &'static str, bool, &'static str)> {
    vec![
        (AppError::BadRequest("b".into()), 400, "b", false, "BadRequest: b"),
        (AppError::Unauthorized("u".into()), 401, "u", false, "Unauthorized: u"),
        (AppError::Forbidden("f".into()), 403, "f", false, "Forbidden: f"),
        (AppError::NotFound("n".into()), 404, "n", false, "NotFound: n"),
        (AppError::Conflict("c".into()), 409, "c", false, "Conflict: c"),
        (
            AppError::Database("connection reset".into()),
            500,
            "internal server error",
            true,
            "Database error: connection reset",
        ),
        (
            AppError::Redis("timed out".into()),
            500,
            "internal server error",
            true,
            "Redis error: timed out",
        ),
        (AppError::Internal, 500, "internal server error", true, "Internal server error"),
    ]
}

#[test]
fn every_failure_has_its_status_and_message() {
    for (error, status, message, _, _) in all() {
        let response = error.error_response();
        assert_eq!(response.status, status, "{:?}", error);
        assert_eq!(response.body.msg, message, "{:?}", error);
        assert_eq!(response.body.data, None, "{:?}", error);
    }
}

#[test]
fn only_failures_of_the_service_are_logged_as_errors() {
    for (error, _, _, logged, _) in all() {
        assert_eq!(error.error_response().log_as_error, logged, "{:?}", error);
    }
}

#[test]
fn failures_are_written_out_for_diagnostics() {
    for (error, _, _, _, text) in all() {
        assert_eq!(error.to_string(), text);
    }
}

#[test]
fn forbidden_and_unauthorized_are_answered_differently() {
    let forbidden = AppError::Forbidden("permission denied".into()).error_response();
    let unauthorized = AppError::Unauthorized("authentication required".into()).error_response();
    assert_eq!(forbidden.status, 403);
    assert_eq!(unauthorized.status, 401);
}

#[test]
fn cause_of_an_internal_failure_is_not_shown() {
    let response = AppError::Database("password=hunter2 rejected".into()).error_response();
    assert!(!response.body.msg.contains("hunter2"));
}
