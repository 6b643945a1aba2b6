use patternsaver::authentication::AuthError;
use patternsaver::routes::auth::login::{LoginError, ResponseKind};
use patternsaver::routes::auth::signup_activate_resend::ActivationError;
use patternsaver::startup::ApiError;

#[test]
fn failed_logins_are_answered_by_cause() {
    let e = LoginError::from_auth_error(AuthError::InvalidCredentials("Invalid password.".to_string()));
    assert!(matches!(e, LoginError::AuthError(ref m) if m == "Invalid password."));
    assert_eq!(e.response_status(), 401);
    assert_eq!(e.status_code(), 400);
    assert_eq!(e.response_kind(), ResponseKind::Fail);
    assert_eq!(e.response_message(), "Authentication failed.");
    assert_eq!(e.to_string(), "Authentication failed.");

    let e = LoginError::from_auth_error(AuthError::InactiveAccount("not active".to_string()));
    assert!(matches!(e, LoginError::ForbiddenError(_)));
    assert_eq!(e.response_status(), 403);
    assert_eq!(e.status_code(), 403);
    assert_eq!(e.response_kind(), ResponseKind::Fail);
    assert_eq!(e.response_message(), "Account is not activated.");
    assert_eq!(e.to_string(), "Account is inactive.");

    let e = LoginError::from_auth_error(AuthError::UnexpectedError("pool closed".to_string()));
    assert!(matches!(e, LoginError::UnexpectedError(_)));
    assert_eq!(e.response_status(), 500);
    assert_eq!(e.status_code(), 500);
    assert_eq!(e.response_kind(), ResponseKind::Error);
    assert_eq!(e.response_message(), "Something went wrong.");
}

#[test]
fn activation_errors_are_server_errors() {
    let e = ActivationError::UnexpectedError("Failed to send a confirmation email.".to_string());
    assert_eq!(e.status_code(), 500);
    assert_eq!(e.to_string(), "Something went wrong.");
}

#[test]
fn json_errors_are_cut_before_the_position() {
    assert_eq!(
        ApiError::json_error_message("missing field `title` at line 3 column 1"),
        "missing field `title`"
    );
    assert_eq!(ApiError::json_error_message(" at"), "");
    assert_eq!(
        ApiError::json_error_message("expected value at line 1 column 1 at end"),
        "expected value"
    );
    assert_eq!(ApiError::json_error_message("héllo wörld at x"), "héllo wörld");
}
