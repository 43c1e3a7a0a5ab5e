//! The normalized error value.
use vstd::prelude::*;

use crate::codes::{default_message_of, AppErrorCode, BAD_REQUEST};

verus! {

/// What the `{:?}` rendering of a string holds: the text in double quotes,
/// with quotes, backslashes and control characters escaped.
pub uninterp spec fn debug_quoted_of(s: Seq<char>) -> Seq<char>;

/// Text made of printable ASCII characters other than `"` and `\`: the
/// characters that neither Rust's `Debug` nor JSON escapes.
pub open spec fn plain_text(s: Seq<char>) -> bool {
    forall|i: int| 0 <= i < s.len() ==> ' ' <= #[trigger] s[i] <= '~' && s[i] != '"' && s[i] != '\\'
}

/// The text between double quotes.
pub open spec fn quoted(s: Seq<char>) -> Seq<char> {
    seq!['"'] + s + seq!['"']
}

/// Relies on std's `Debug` for `str`: the rendering depends on the
/// characters alone, and printable ASCII other than `"` and `\` is written
/// as it is, between double quotes.
#[verifier::external_body]
fn debug_quoted(s: &str) -> (r: String)
    ensures
        r@ == debug_quoted_of(s@),
        plain_text(s@) ==> r@ == quoted(s@),
{
    format!("{:?}", s)
}

/// An error as the rest of the service sees it: a message and a code.
#[derive(Debug)]
pub struct AppError {
    pub message: String,
    pub code: AppErrorCode,
}

/// The contents of an `AppError`: its message as text and its raw code.
pub struct AppErrorView {
    pub message: Seq<char>,
    pub code: i32,
}

impl View for AppError {
    type V = AppErrorView;

    open spec fn view(&self) -> AppErrorView {
        AppErrorView { message: self.message@, code: self.code.0 }
    }
}

impl AppErrorCode {
    /// An error of this code with the given message.
    pub fn message(&self, message: String) -> (r: AppError)
        ensures
            r.message == message,
            r.code == *self,
    {
        AppError { message, code: *self }
    }

    /// An error of this code with the code's default message.
    pub fn default(self) -> (r: AppError)
        ensures
            r.message@ == default_message_of(self.0),
            r.code == self,
    {
        let text = self.default_message();
        AppError { message: String::from_str(text), code: self }
    }
}

// The message is a `String` built at run time, which no spec value can stand
// for: `from_spec` is left open and `from` states its result in `ensures`.
impl From<AppErrorCode> for AppError {
    fn from(code: AppErrorCode) -> (r: AppError)
        ensures
            r.message@ == default_message_of(code.0),
            r.code == code,
    {
        code.default()
    }
}

impl vstd::std_specs::convert::FromSpecImpl<AppErrorCode> for AppError {
    open spec fn obeys_from_spec() -> bool {
        false
    }

    open spec fn from_spec(code: AppErrorCode) -> AppError {
        arbitrary()
    }
}

impl AppError {
    /// A bad-request error for an identifier that does not parse.
    pub fn invalid_uuid(id: &str) -> (r: AppError)
        ensures
            r.code == AppErrorCode(BAD_REQUEST),
            r.message@ == "Invalid UUID: "@ + debug_quoted_of(id@),
    {
        let mut text = String::from_str("Invalid UUID: ");
        let quoted = debug_quoted(id);
        text.append(quoted.as_str());
        AppErrorCode(BAD_REQUEST).message(text)
    }

    /// A bad-request error for a field that must be present.
    pub fn required_field(field: &str) -> (r: AppError)
        ensures
            r.code == AppErrorCode(BAD_REQUEST),
            r.message@ == "Require Field: "@ + debug_quoted_of(field@),
    {
        let mut text = String::from_str("Require Field: ");
        let quoted = debug_quoted(field);
        text.append(quoted.as_str());
        AppErrorCode(BAD_REQUEST).message(text)
    }

    /// A bad-request error for a value that is already taken.
    pub fn already_exists(field: String) -> (r: AppError)
        ensures
            r.code == AppErrorCode(BAD_REQUEST),
            r.message@ == "Item already exists: "@ + debug_quoted_of(field@),
            plain_text(field@) ==> r.message@ == "Item already exists: "@ + quoted(field@),
    {
        let mut text = String::from_str("Item already exists: ");
        let quoted = debug_quoted(field.as_str());
        text.append(quoted.as_str());
        AppErrorCode(BAD_REQUEST).message(text)
    }
}

} // verus!
