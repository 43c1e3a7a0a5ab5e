//! A unified application error: a numeric classification code, the
//! category and default message that each code stands for, the transport
//! status it renders with, and the envelope used to hand it to another
//! service.
pub mod adapters;
pub mod codes;
pub mod error;
pub mod render;
pub mod wire;

pub use codes::{AppErrorCode, ErrorCategory};
pub use error::AppError;
pub use wire::{ErrorProtoExt, WireError};
