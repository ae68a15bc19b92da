use speicherwald::error::validation::{validate_path, validate_paths_exist, validate_positive_number};
use speicherwald::error::{AppError, DbFailure, ErrorDetails, OptionExt};

#[test]
fn test_app_error_display() {
    let error = AppError::BadRequest("Invalid input".to_string());
    assert_eq!(error.message(), "Bad request: Invalid input");

    let error = AppError::NotFound("Resource not found".to_string());
    assert_eq!(error.message(), "Not found: Resource not found");

    let error = AppError::RateLimited { retry_after_seconds: 60 };
    assert_eq!(error.message(), "Rate limited. Retry after 60 seconds");
}

#[test]
fn test_app_error_into_response() {
    let error = AppError::BadRequest("Test error".to_string());
    assert_eq!(error.response_body().status, 400);

    let error = AppError::NotFound("Not found".to_string());
    assert_eq!(error.response_body().status, 404);

    let error = AppError::Conflict("Conflict".to_string());
    assert_eq!(error.response_body().status, 409);

    let error = AppError::ServiceUnavailable("Service down".to_string());
    assert_eq!(error.response_body().status, 503);

    let error = AppError::Unauthorized("No access".to_string());
    assert_eq!(error.response_body().status, 401);

    let error = AppError::RateLimited { retry_after_seconds: 30 };
    assert_eq!(error.response_body().status, 429);
}

#[test]
fn test_from_io_error() {
    let io_error = std::io::Error::new(std::io::ErrorKind::NotFound, "File not found");
    let app_error: AppError = io_error.into();

    match app_error {
        AppError::IoError(msg) => {
            assert!(msg.contains("NotFound"));
            assert!(msg.contains("File not found"));
        }
        _ => panic!("Expected IoError variant"),
    }
}

#[test]
fn test_option_ext() {
    let some_value: Option<i32> = Some(42);
    let result: Result<i32, AppError> = some_value.ok_or_not_found("test entity");
    assert!(result.is_ok());
    assert_eq!(result.unwrap(), 42);

    let none_value: Option<i32> = None;
    let result: Result<i32, AppError> = none_value.ok_or_not_found("test entity");
    assert!(result.is_err());

    match result.unwrap_err() {
        AppError::NotFound(msg) => {
            assert_eq!(msg, "test entity not found");
        }
        _ => panic!("Expected NotFound error"),
    }
}

#[test]
fn test_validate_path() {
    assert!(validate_path("/valid/path").is_ok());
    assert!(validate_path("C:\\Windows\\System32").is_ok());

    let result = validate_path("");
    assert!(result.is_err());
    match result.unwrap_err() {
        AppError::ValidationError { field, message } => {
            assert_eq!(field, "path");
            assert_eq!(message, "Path cannot be empty");
        }
        _ => panic!("Expected ValidationError"),
    }

    let result = validate_path("path\0with\0null");
    assert!(result.is_err());
    match result.unwrap_err() {
        AppError::ValidationError { field, message } => {
            assert_eq!(field, "path");
            assert_eq!(message, "Path contains null characters");
        }
        _ => panic!("Expected ValidationError"),
    }
}

#[test]
fn test_validate_positive_number() {
    assert!(validate_positive_number(Some(1), "test_field").is_ok());
    assert!(validate_positive_number(Some(100), "test_field").is_ok());
    assert!(validate_positive_number(None, "test_field").is_ok());

    let result = validate_positive_number(Some(0), "test_field");
    assert!(result.is_err());
    match result.unwrap_err() {
        AppError::ValidationError { field, message } => {
            assert_eq!(field, "test_field");
            assert!(message.contains("must be positive"));
        }
        _ => panic!("Expected ValidationError"),
    }

    let result = validate_positive_number(Some(-5), "test_field");
    assert!(result.is_err());
    match result.unwrap_err() {
        AppError::ValidationError { field, message } => {
            assert_eq!(field, "test_field");
            assert!(message.contains("must be positive"));
            assert!(message.contains("-5"));
        }
        _ => panic!("Expected ValidationError"),
    }
}

#[test]
fn test_validate_paths_exist() {
    let paths = vec!["/tmp".to_string(), "/tmp/test.txt".to_string()];
    assert!(validate_paths_exist(&paths, &vec![true, true]).is_ok());

    let paths = vec!["/this/path/does/not/exist".to_string()];
    let result = validate_paths_exist(&paths, &vec![false]);
    assert!(result.is_err());
    match result.unwrap_err() {
        AppError::NotFound(msg) => {
            assert!(msg.contains("Path does not exist"));
            assert!(msg.contains("/this/path/does/not/exist"));
        }
        _ => panic!("Expected NotFound error"),
    }
}

#[test]
fn test_validation_error_creation() {
    let error = AppError::ValidationError {
        field: "email".to_string(),
        message: "Invalid email format".to_string(),
    };
    assert_eq!(error.response_body().status, 400);
}

#[test]
fn test_scan_error_types() {
    let errors = vec![
        AppError::NotFound("Scan not found".to_string()),
        AppError::InvalidInput("Invalid path".to_string()),
        AppError::Database("Connection failed".to_string()),
        AppError::Scanner("Access denied".to_string()),
        AppError::Internal("Unexpected error".to_string()),
    ];

    for error in errors {
        let error_str = error.message();
        assert!(!error_str.is_empty());
    }
}

#[test]
fn error_bodies_hide_internal_details() {
    let body = AppError::Database("disk I/O error".to_string()).response_body();
    assert_eq!(body.status, 500);
    assert_eq!(body.code, "DATABASE_ERROR");
    assert_eq!(body.message, "A database error occurred");
    match body.details {
        ErrorDetails::Details(d) => assert_eq!(d, "disk I/O error"),
        _ => panic!("expected details"),
    }
    let body = AppError::Internal("boom".to_string()).response_body();
    assert_eq!(body.message, "An internal server error occurred");
    match body.details {
        ErrorDetails::ErrorId(id) => assert_eq!(id.len(), 36),
        _ => panic!("expected an error id"),
    }
    let body = AppError::RateLimited { retry_after_seconds: 7 }.response_body();
    assert_eq!(body.message, "Too many requests. Please retry after 7 seconds");
    let body = AppError::ValidationError { field: "f".to_string(), message: "m".to_string() }.response_body();
    assert_eq!(body.message, "Validation failed for field 'f'");
    assert_eq!(
        AppError::ValidationError { field: "f".to_string(), message: "m".to_string() }.message(),
        "Validation error on field 'f': m"
    );
}

#[test]
fn database_failures_map_to_errors() {
    match AppError::from_db_failure(&DbFailure::RowNotFound) {
        AppError::NotFound(m) => assert_eq!(m, "Record not found"),
        _ => panic!(),
    }
    match AppError::from_db_failure(&DbFailure::PoolTimedOut) {
        AppError::ServiceUnavailable(m) => assert_eq!(m, "Database connection pool timed out"),
        _ => panic!(),
    }
    match AppError::from_db_failure(&DbFailure::Database("locked".to_string())) {
        AppError::Database(m) => assert_eq!(m, "Database error: locked"),
        _ => panic!(),
    }
}

#[test]
fn test_from_globset_error() {
    let glob_result = globset::Glob::new("[invalid");
    assert!(glob_result.is_err());

    let app_error: AppError = glob_result.unwrap_err().into();
    match app_error {
        AppError::InvalidInput(msg) => {
            assert!(msg.contains("Invalid glob pattern"));
        }
        _ => panic!("Expected InvalidInput variant"),
    }
}
