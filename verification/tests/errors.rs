use morde_rs::errors::{log_severity, AppError, ErrorCategory, LogSeverity, StatusKind};

#[test]
fn convenience_constructors_fix_their_status_codes() {
    let e = AppError::internal_server_error("m".to_string());
    assert_eq!(e.status.to_http_status(), 500);
    assert_eq!(e.error, "INTERNAL_SERVER_ERROR");
    assert_eq!(e.message, "m");

    let e = AppError::not_found("E".to_string(), "m".to_string());
    assert_eq!(e.status.to_http_status(), 404);
    assert_eq!(e.error, "E");

    let e = AppError::bad_request("E".to_string(), "m".to_string());
    assert_eq!(e.status.to_http_status(), 400);

    let e = AppError::unauthorized("m".to_string());
    assert_eq!(e.status.to_http_status(), 401);
    assert_eq!(e.error, "UNAUTHORIZED");

    let e = AppError::conflict("E".to_string(), "m".to_string());
    assert_eq!(e.status.to_http_status(), 409);
}

#[test]
fn app_status_always_maps_to_internal_server_error() {
    assert_eq!(StatusKind::App(0).to_http_status(), 500);
    assert_eq!(StatusKind::App(1).to_http_status(), 500);
    assert_eq!(StatusKind::App(404).to_http_status(), 500);
    assert_eq!(StatusKind::App(u16::MAX).to_http_status(), 500);
}

#[test]
fn http_status_passes_through_unchanged() {
    assert_eq!(StatusKind::Http(404).to_http_status(), 404);
    assert_eq!(StatusKind::Http(418).to_http_status(), 418);
}

#[test]
fn number_converts_to_application_status() {
    assert_eq!(StatusKind::from(7u16), StatusKind::App(7));
}

#[test]
fn response_carries_code_and_message_only() {
    let e = AppError::new(StatusKind::App(3), "E".to_string(), "m".to_string());
    let (code, body) = e.to_response();
    assert_eq!(code, 500);
    assert_eq!(body.error, "E");
    assert_eq!(body.message, "m");

    let e = AppError::not_found("NF".to_string(), "gone".to_string());
    let (code, body) = e.to_response();
    assert_eq!(code, 404);
    assert_eq!(body.error, "NF");
    assert_eq!(body.message, "gone");
}

#[test]
fn categories_build_their_errors() {
    let e = AppError::from_category(&ErrorCategory::AppStatus(9), "E".to_string(), "m".to_string());
    assert_eq!(e.status, StatusKind::App(9));
    let e = AppError::from_category(&ErrorCategory::HttpStatus(503), "E".to_string(), "m".to_string());
    assert_eq!(e.status, StatusKind::Http(503));
    let e = AppError::from_category(&ErrorCategory::BadRequest, "E".to_string(), "m".to_string());
    assert_eq!(e.status, StatusKind::Http(400));
    let e = AppError::from_category(&ErrorCategory::NotFound, "E".to_string(), "m".to_string());
    assert_eq!(e.status, StatusKind::Http(404));
    let e = AppError::from_category(&ErrorCategory::Unauthorized, "E".to_string(), "m".to_string());
    assert_eq!(e.status, StatusKind::Http(401));
    assert_eq!(e.error, "UNAUTHORIZED");
    let e = AppError::from_category(&ErrorCategory::Conflict, "E".to_string(), "m".to_string());
    assert_eq!(e.status, StatusKind::Http(409));
    let e = AppError::from_category(
        &ErrorCategory::InternalServerError,
        "E".to_string(),
        "m".to_string(),
    );
    assert_eq!(e.status, StatusKind::Http(500));
    assert_eq!(e.error, "INTERNAL_SERVER_ERROR");
}

#[test]
fn only_internal_server_error_logs_at_error_level() {
    assert_eq!(log_severity(&ErrorCategory::InternalServerError), LogSeverity::Error);
    assert_eq!(log_severity(&ErrorCategory::BadRequest), LogSeverity::Warning);
    assert_eq!(log_severity(&ErrorCategory::AppStatus(1)), LogSeverity::Warning);
    assert_eq!(log_severity(&ErrorCategory::HttpStatus(500)), LogSeverity::Warning);
    assert_eq!(log_severity(&ErrorCategory::Unauthorized), LogSeverity::Warning);
}
