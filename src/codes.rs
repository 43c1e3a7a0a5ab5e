//! Error codes and the two lookups keyed on them: the category a code
//! belongs to, and the message an error of that code carries by default.
//! The two tables are kept apart on purpose: call sites reuse generic codes
//! with situational text, so they do not agree everywhere.
use vstd::prelude::*;

verus! {

/// Raw values of the recognized codes.
pub const INTERNAL_ERROR: i32 = 1001;
pub const INVALID_INPUT: i32 = 2001;
pub const NOT_AUTHORIZED: i32 = 3001;
/// Not authorized, with no category of its own.
pub const NOT_AUTHORIZED_SESSION: i32 = 3002;
pub const NOT_FOUND: i32 = 4001;
pub const CACHE: i32 = 5001;
pub const DATABASE_ERROR: i32 = 6001;
pub const CONFLICT: i32 = 7001;
pub const BAD_REQUEST: i32 = 8001;
pub const PERMISSION_DENIED: i32 = 9001;

/// A numeric classification attached to every error. The integer is the
/// value that travels on the wire.
#[derive(Debug, Clone, Copy, PartialEq, Eq, Structural)]
pub struct AppErrorCode(pub i32);

/// The named classification a code belongs to.
#[derive(Debug, Clone, Copy, PartialEq, Eq, Structural)]
pub enum ErrorCategory {
    InternalError,
    InvalidInput,
    NotAuthorized,
    NotFound,
    Cache,
    DatabaseError,
    Conflict,
    BadRequest,
    PermissionDenied,
    Unknown,
}

/// The category of a code; every code outside the table is `Unknown`.
pub open spec fn category_of(code: i32) -> ErrorCategory {
    if code == INTERNAL_ERROR {
        ErrorCategory::InternalError
    } else if code == INVALID_INPUT {
        ErrorCategory::InvalidInput
    } else if code == NOT_AUTHORIZED {
        ErrorCategory::NotAuthorized
    } else if code == NOT_FOUND {
        ErrorCategory::NotFound
    } else if code == CACHE {
        ErrorCategory::Cache
    } else if code == DATABASE_ERROR {
        ErrorCategory::DatabaseError
    } else if code == CONFLICT {
        ErrorCategory::Conflict
    } else if code == BAD_REQUEST {
        ErrorCategory::BadRequest
    } else if code == PERMISSION_DENIED {
        ErrorCategory::PermissionDenied
    } else {
        ErrorCategory::Unknown
    }
}

/// The name under which a category is written on the wire.
pub open spec fn category_name(c: ErrorCategory) -> Seq<char> {
    match c {
        ErrorCategory::InternalError => "INTERNAL_ERROR"@,
        ErrorCategory::InvalidInput => "INVALID_INPUT"@,
        ErrorCategory::NotAuthorized => "NOT_AUTHORIZED"@,
        ErrorCategory::NotFound => "NOT_FOUND"@,
        ErrorCategory::Cache => "CACHE"@,
        ErrorCategory::DatabaseError => "DATABASE_ERROR"@,
        ErrorCategory::Conflict => "CONFLICT"@,
        ErrorCategory::BadRequest => "BAD_REQUEST"@,
        ErrorCategory::PermissionDenied => "PERMISSION_DENIED"@,
        ErrorCategory::Unknown => "UNKNOWN"@,
    }
}

/// The message an error of the given code carries when none is supplied.
pub open spec fn default_message_of(code: i32) -> Seq<char> {
    if code == INVALID_INPUT {
        "Invalid input."@
    } else if code == NOT_AUTHORIZED {
        "Invalid username or password provided"@
    } else if code == NOT_AUTHORIZED_SESSION {
        "Not authorized."@
    } else if code == NOT_FOUND {
        "Item not found."@
    } else if code == CACHE || code == DATABASE_ERROR {
        "Bcrypt error."@
    } else if code == PERMISSION_DENIED {
        "You don't have permission, ask the administrator"@
    } else {
        "An unexpected error has occurred or token was expired"@
    }
}

impl ErrorCategory {
    /// The category's name as written on the wire.
    pub fn as_str(&self) -> (r: &'static str)
        ensures
            r@ == category_name(*self),
    {
        match self {
            ErrorCategory::InternalError => "INTERNAL_ERROR",
            ErrorCategory::InvalidInput => "INVALID_INPUT",
            ErrorCategory::NotAuthorized => "NOT_AUTHORIZED",
            ErrorCategory::NotFound => "NOT_FOUND",
            ErrorCategory::Cache => "CACHE",
            ErrorCategory::DatabaseError => "DATABASE_ERROR",
            ErrorCategory::Conflict => "CONFLICT",
            ErrorCategory::BadRequest => "BAD_REQUEST",
            ErrorCategory::PermissionDenied => "PERMISSION_DENIED",
            ErrorCategory::Unknown => "UNKNOWN",
        }
    }
}

impl AppErrorCode {
    /// The category this code belongs to.
    pub fn category(&self) -> (r: ErrorCategory)
        ensures
            r == category_of(self.0),
    {
        match self.0 {
            INTERNAL_ERROR => ErrorCategory::InternalError,
            INVALID_INPUT => ErrorCategory::InvalidInput,
            NOT_AUTHORIZED => ErrorCategory::NotAuthorized,
            NOT_FOUND => ErrorCategory::NotFound,
            CACHE => ErrorCategory::Cache,
            DATABASE_ERROR => ErrorCategory::DatabaseError,
            CONFLICT => ErrorCategory::Conflict,
            BAD_REQUEST => ErrorCategory::BadRequest,
            PERMISSION_DENIED => ErrorCategory::PermissionDenied,
            _ => ErrorCategory::Unknown,
        }
    }

    /// The default message for this code, as text.
    pub fn default_message(&self) -> (r: &'static str)
        ensures
            r@ == default_message_of(self.0),
    {
        match self.0 {
            INVALID_INPUT => "Invalid input.",
            NOT_AUTHORIZED => "Invalid username or password provided",
            NOT_AUTHORIZED_SESSION => "Not authorized.",
            NOT_FOUND => "Item not found.",
            CACHE => "Bcrypt error.",
            DATABASE_ERROR => "Bcrypt error.",
            PERMISSION_DENIED => "You don't have permission, ask the administrator",
            _ => "An unexpected error has occurred or token was expired",
        }
    }
}

} // verus!
