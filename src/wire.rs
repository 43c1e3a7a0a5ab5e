//! The envelope in which an error crosses to another service, and the
//! conversions between it and `AppError`.
use vstd::prelude::*;

use std::collections::HashMap;

use crate::codes::{category_name, category_of, AppErrorCode};
use crate::error::{AppError, AppErrorView};

verus! {

/// The identity this service stamps on the errors it emits.
pub const SERVICE_NAME: &'static str = "dev_core";

/// An error as it travels between services. `details` and `metadata` are
/// reserved for structured context and are emitted empty.
#[derive(Debug)]
pub struct WireError {
    pub message: String,
    pub code: i32,
    pub service_name: String,
    pub error_type: String,
    pub details: Vec<String>,
    pub metadata: HashMap<String, String>,
}

/// The contents of a `WireError`.
pub struct WireView {
    pub message: Seq<char>,
    pub code: i32,
    pub service_name: Seq<char>,
    pub error_type: Seq<char>,
    pub details: Seq<String>,
    pub metadata: Map<String, String>,
}

impl View for WireError {
    type V = WireView;

    open spec fn view(&self) -> WireView {
        WireView {
            message: self.message@,
            code: self.code,
            service_name: self.service_name@,
            error_type: self.error_type@,
            details: self.details@,
            metadata: self.metadata@,
        }
    }
}

/// The envelope this service emits for an error.
pub open spec fn wire_of(e: AppErrorView) -> WireView {
    WireView {
        message: e.message,
        code: e.code,
        service_name: SERVICE_NAME@,
        error_type: category_name(category_of(e.code)),
        details: Seq::empty(),
        metadata: Map::empty(),
    }
}

/// The error a received envelope stands for: its message and code; the rest
/// of the envelope is dropped.
pub open spec fn app_of(w: WireView) -> AppErrorView {
    AppErrorView { message: w.message, code: w.code }
}

/// Sending an error to another service and reading it back there gives the
/// same message and code.
pub proof fn wire_round_trip(e: AppError)
    ensures
        app_of(wire_of(e@)) == e@,
{
}

/// Conversion between an error and its wire envelope.
pub trait ErrorProtoExt: Sized + View<V = AppErrorView> {
    fn to_proto(&self) -> (r: WireError)
        ensures
            r@ == wire_of(self@),
    ;

    fn from_proto(proto: WireError) -> (r: Self)
        ensures
            r@ == app_of(proto@),
    ;
}

impl ErrorProtoExt for AppError {
    fn to_proto(&self) -> (r: WireError) {
        let error_type = String::from_str(self.code.category().as_str());
        WireError {
            message: self.message.clone(),
            code: self.code.0,
            service_name: String::from_str(SERVICE_NAME),
            error_type,
            details: Vec::new(),
            metadata: HashMap::new(),
        }
    }

    fn from_proto(proto: WireError) -> (r: AppError) {
        AppError::from(proto)
    }
}

impl From<AppError> for WireError {
    fn from(err: AppError) -> (r: WireError)
        ensures
            r@ == wire_of(err@),
    {
        err.to_proto()
    }
}

impl vstd::std_specs::convert::FromSpecImpl<AppError> for WireError {
    open spec fn obeys_from_spec() -> bool {
        false
    }

    open spec fn from_spec(err: AppError) -> WireError {
        arbitrary()
    }
}

// A `WireError` holds strings and collections built at run time, which no
// spec value can stand for: these two impls leave `from_spec` open and state
// their result in their own `ensures`.
impl From<&AppError> for WireError {
    fn from(err: &AppError) -> (r: WireError)
        ensures
            r@ == wire_of(err@),
    {
        err.to_proto()
    }
}

impl vstd::std_specs::convert::FromSpecImpl<&AppError> for WireError {
    open spec fn obeys_from_spec() -> bool {
        false
    }

    open spec fn from_spec(err: &AppError) -> WireError {
        arbitrary()
    }
}

impl From<WireError> for AppError {
    fn from(proto: WireError) -> (r: AppError)
        ensures
            r@ == app_of(proto@),
    {
        AppError { message: proto.message, code: AppErrorCode(proto.code) }
    }
}

impl vstd::std_specs::convert::FromSpecImpl<WireError> for AppError {
    open spec fn obeys_from_spec() -> bool {
        true
    }

    open spec fn from_spec(proto: WireError) -> AppError {
        AppError { message: proto.message, code: AppErrorCode(proto.code) }
    }
}

} // verus!
