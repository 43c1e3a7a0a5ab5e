//! Rendering an error as a transport response: a status and a JSON body
//! `{"message":...,"code":...}`.
use vstd::prelude::*;

use crate::codes::{CACHE, INVALID_INPUT, NOT_AUTHORIZED, NOT_AUTHORIZED_SESSION, NOT_FOUND};
use crate::error::{plain_text, quoted, AppError};

verus! {

/// The transport status an error of the given code renders with.
pub open spec fn status_of(code: i32) -> u16 {
    if code == INVALID_INPUT {
        400
    } else if code == NOT_FOUND {
        404
    } else if code == NOT_AUTHORIZED || code == NOT_AUTHORIZED_SESSION {
        401
    } else {
        500
    }
}

/// The character of a decimal digit.
pub open spec fn digit_char(d: nat) -> char {
    ((d + 48) as u8) as char
}

/// The decimal digits of a natural number, without leading zeros.
pub open spec fn digits_of(n: nat) -> Seq<char>
    decreases n,
{
    if n < 10 {
        seq![digit_char(n)]
    } else {
        digits_of(n / 10).push(digit_char(n % 10))
    }
}

/// The decimal text of an integer, with a leading `-` when negative.
pub open spec fn decimal_of(n: int) -> Seq<char> {
    if n < 0 {
        seq!['-'] + digits_of((-n) as nat)
    } else {
        digits_of(n as nat)
    }
}

/// What serde_json writes for a string value: the text as a JSON string
/// literal, quoted and escaped.
pub uninterp spec fn json_string_of(s: Seq<char>) -> Seq<char>;

/// The body of the response for an error with the given message and code.
pub open spec fn body_of(message: Seq<char>, code: i32) -> Seq<char> {
    "{\"message\":"@ + json_string_of(message) + ",\"code\":"@ + decimal_of(code as int) + "}"@
}

/// Relies on std's `Display` for `i32`: the number in decimal, with a
/// leading `-` when negative.
#[verifier::external_body]
fn decimal_text(n: i32) -> (r: String)
    ensures
        r@ == decimal_of(n as int),
{
    n.to_string()
}

/// Relies on serde_json's compact `Display` for `Value::String`: the string
/// as a JSON literal, which depends on the characters alone; printable ASCII
/// other than `"` and `\` is written as it is, between double quotes.
#[verifier::external_body]
fn json_string(s: &str) -> (r: String)
    ensures
        r@ == json_string_of(s@),
        plain_text(s@) ==> r@ == quoted(s@),
{
    serde_json::Value::String(s.to_string()).to_string()
}

impl AppError {
    /// The transport status this error renders with.
    pub fn status_code(&self) -> (r: u16)
        ensures
            r == status_of(self.code.0),
    {
        match self.code.0 {
            INVALID_INPUT => 400,
            NOT_FOUND => 404,
            NOT_AUTHORIZED => 401,
            NOT_AUTHORIZED_SESSION => 401,
            CACHE => 500,
            _ => 500,
        }
    }

    /// The JSON body of the response for this error.
    pub fn response_body(&self) -> (r: String)
        ensures
            r@ == body_of(self.message@, self.code.0),
            plain_text(self.message@) ==> r@ == "{\"message\":"@ + quoted(self.message@)
                + ",\"code\":"@ + decimal_of(self.code.0 as int) + "}"@,
    {
        let mut body = String::from_str("{\"message\":");
        let quoted = json_string(self.message.as_str());
        body.append(quoted.as_str());
        body.append(",\"code\":");
        let digits = decimal_text(self.code.0);
        body.append(digits.as_str());
        body.append("}");
        body
    }
}

} // verus!
