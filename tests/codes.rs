use dev_core::codes::{BAD_REQUEST, CACHE, DATABASE_ERROR, INTERNAL_ERROR, NOT_AUTHORIZED_SESSION};
use dev_core::{AppError, AppErrorCode, ErrorCategory};

#[test]
fn category_of_each_recognized_code() {
    let table = [
        (1001, ErrorCategory::InternalError, "INTERNAL_ERROR"),
        (2001, ErrorCategory::InvalidInput, "INVALID_INPUT"),
        (3001, ErrorCategory::NotAuthorized, "NOT_AUTHORIZED"),
        (4001, ErrorCategory::NotFound, "NOT_FOUND"),
        (5001, ErrorCategory::Cache, "CACHE"),
        (6001, ErrorCategory::DatabaseError, "DATABASE_ERROR"),
        (7001, ErrorCategory::Conflict, "CONFLICT"),
        (8001, ErrorCategory::BadRequest, "BAD_REQUEST"),
        (9001, ErrorCategory::PermissionDenied, "PERMISSION_DENIED"),
    ];
    for (code, category, name) in table {
        assert_eq!(AppErrorCode(code).category(), category);
        assert_eq!(AppErrorCode(code).category().as_str(), name);
    }
}

#[test]
fn category_of_other_codes_is_unknown() {
    for code in [0, -1, 1000, 3002, 1002, 9999, i32::MIN, i32::MAX] {
        assert_eq!(AppErrorCode(code).category(), ErrorCategory::Unknown);
        assert_eq!(AppErrorCode(code).category().as_str(), "UNKNOWN");
    }
}

#[test]
fn bcrypt_default_for_cache_and_database_codes() {
    assert_eq!(AppErrorCode(CACHE).default().message, "Bcrypt error.");
    assert_eq!(AppErrorCode(DATABASE_ERROR).default().message, "Bcrypt error.");
    assert_ne!(AppErrorCode(CACHE).category(), AppErrorCode(DATABASE_ERROR).category());
}

#[test]
fn default_messages() {
    let table = [
        (2001, "Invalid input."),
        (3001, "Invalid username or password provided"),
        (3002, "Not authorized."),
        (4001, "Item not found."),
        (9001, "You don't have permission, ask the administrator"),
        (1001, "An unexpected error has occurred or token was expired"),
        (7001, "An unexpected error has occurred or token was expired"),
        (-5, "An unexpected error has occurred or token was expired"),
    ];
    for (code, text) in table {
        let e = AppErrorCode(code).default();
        assert_eq!(e.message, text);
        assert_eq!(e.code, AppErrorCode(code));
    }
}

#[test]
fn session_code_has_message_but_no_category() {
    let e = AppErrorCode(NOT_AUTHORIZED_SESSION).default();
    assert_eq!(e.message, "Not authorized.");
    assert_eq!(e.code.category(), ErrorCategory::Unknown);
}

#[test]
fn from_code_uses_default_message() {
    let e = AppError::from(AppErrorCode(4001));
    assert_eq!(e.message, "Item not found.");
    assert_eq!(e.code, AppErrorCode(4001));
}

#[test]
fn message_keeps_code_and_text() {
    let e = AppErrorCode(INTERNAL_ERROR).message("boom".to_string());
    assert_eq!(e.message, "boom");
    assert_eq!(e.code, AppErrorCode(1001));
}

#[test]
fn already_exists_quotes_value() {
    let e = AppError::already_exists("user@example.com".to_string());
    assert_eq!(e.code, AppErrorCode(8001));
    assert!(e.message.contains("user@example.com"));
    assert_eq!(e.message, "Item already exists: \"user@example.com\"");
}

#[test]
fn invalid_uuid_quotes_and_escapes() {
    let e = AppError::invalid_uuid("abc");
    assert_eq!(e.code, AppErrorCode(BAD_REQUEST));
    assert_eq!(e.message, "Invalid UUID: \"abc\"");
    let e = AppError::invalid_uuid("a\"b");
    assert_eq!(e.message, "Invalid UUID: \"a\\\"b\"");
}

#[test]
fn required_field_quotes_name() {
    let e = AppError::required_field("email");
    assert_eq!(e.code, AppErrorCode(BAD_REQUEST));
    assert_eq!(e.message, "Require Field: \"email\"");
}
