//! Conversions from the errors of the service's collaborators (database,
//! cache store, web framework, validation, JSON, error reports) into
//! `AppError`. Each keeps a text rendering of the original error and drops
//! its structure.
use vstd::prelude::*;

use crate::codes::{AppErrorCode, INTERNAL_ERROR, INVALID_INPUT};
use crate::error::AppError;

verus! {

#[verifier::external_type_specification]
#[verifier::external_body]
pub struct ExSqlxError(sqlx::Error);

#[verifier::external_type_specification]
#[verifier::external_body]
pub struct ExRedisErrorKind(redis::ErrorKind);

#[verifier::external_type_specification]
#[verifier::external_body]
pub struct ExActixError(actix_web::Error);

#[verifier::external_type_specification]
#[verifier::external_body]
pub struct ExJsonError(serde_json::Error);

#[verifier::external_type_specification]
#[verifier::external_body]
pub struct ExReport(color_eyre::Report);

#[verifier::external_type_specification]
#[verifier::external_body]
pub struct ExValidationErrors(validator::ValidationErrors);

/// Relies on sqlx's `Debug` for its `Error`: some text describing it.
#[verifier::external_body]
fn sqlx_error_text(e: &sqlx::Error) -> String {
    format!("{:?}", e)
}

/// Relies on redis's `Debug` for its `ErrorKind`: some text describing it.
#[verifier::external_body]
fn redis_error_text(e: &redis::ErrorKind) -> String {
    format!("{:?}", e)
}

/// Relies on actix-web's `Debug` for its `Error`: some text describing it.
#[verifier::external_body]
fn actix_error_text(e: &actix_web::Error) -> String {
    format!("{:?}", e)
}

/// Relies on serde_json's `Debug` for its `Error`: some text describing it.
#[verifier::external_body]
fn json_error_text(e: &serde_json::Error) -> String {
    format!("{:?}", e)
}

/// The names of the fields that failed in a set of validation errors: the
/// keys of the map whose errors are field-level.
pub uninterp spec fn field_names_of(e: validator::ValidationErrors) -> Set<Seq<char>>;

/// The names of the fields listed in a sequence of (name, detail) pairs.
pub open spec fn names_in(fields: Seq<(String, String)>) -> Set<Seq<char>> {
    fields.map_values(|p: (String, String)| p.0@).to_set()
}

/// No two entries of a sequence of (name, detail) pairs share a name.
pub open spec fn names_distinct(fields: Seq<(String, String)>) -> bool {
    forall|i: int, j: int| 0 <= i < j < fields.len() ==> fields[i].0@ != fields[j].0@
}

/// A message that reports each field of `names` once, one line per field,
/// joined with `"; "`, in some order.
pub open spec fn lists_fields(names: Set<Seq<char>>, msg: Seq<char>) -> bool {
    exists|fields: Seq<(String, String)>|
        names_in(fields) == names && names_distinct(fields) && msg == field_lines(fields)
}

/// Relies on validator's `ValidationErrors::field_errors`: each failed field
/// once (they are the keys of a map), with a `Debug` rendering of its errors.
/// They come from a hash map, so their order is not fixed.
#[verifier::external_body]
fn field_details(errors: &validator::ValidationErrors) -> (r: Vec<(String, String)>)
    ensures
        names_in(r@) == field_names_of(*errors),
        names_distinct(r@),
{
    let mut r = Vec::new();
    for (field, errs) in errors.field_errors() {
        r.push((field.to_string(), format!("{:?}", errs)));
    }
    r
}

/// The line that reports one invalid field.
pub open spec fn field_line(name: Seq<char>, detail: Seq<char>) -> Seq<char> {
    "Field '"@ + name + "' is invalid: "@ + detail
}

/// The lines of the given fields, in order, joined with `"; "`.
pub open spec fn field_lines(fields: Seq<(String, String)>) -> Seq<char>
    decreases fields.len(),
{
    if fields.len() == 0 {
        Seq::empty()
    } else if fields.len() == 1 {
        field_line(fields[0].0@, fields[0].1@)
    } else {
        field_lines(fields.drop_last()) + "; "@ + field_line(fields.last().0@, fields.last().1@)
    }
}

/// When exactly two fields failed, the message is their two lines joined
/// with `"; "`, in either order.
pub proof fn two_invalid_fields(names: Set<Seq<char>>, msg: Seq<char>, a: Seq<char>, b: Seq<char>)
    requires
        a != b,
        names == set![a, b],
        lists_fields(names, msg),
    ensures
        exists|da: Seq<char>, db: Seq<char>|
            msg == field_line(a, da) + "; "@ + field_line(b, db) || msg == field_line(b, db)
                + "; "@ + field_line(a, da),
{
    let fields = choose|fields: Seq<(String, String)>|
        names_in(fields) == names && names_distinct(fields) && msg == field_lines(fields);
    let keys = fields.map_values(|p: (String, String)| p.0@);
    assert(keys.no_duplicates()) by {
        assert forall|i: int, j: int|
            0 <= i < keys.len() && 0 <= j < keys.len() && i != j implies keys[i] != keys[j] by {
            if i < j {
                assert(fields[i].0@ != fields[j].0@);
            } else {
                assert(fields[j].0@ != fields[i].0@);
            }
        }
    }
    keys.unique_seq_to_set();
    assert(set![a, b].len() == 2);
    assert(fields.len() == 2);
    assert(keys.to_set().contains(keys[0]));
    assert(keys.to_set().contains(keys[1]));
    assert(fields.drop_last().len() == 1);
    assert(fields.drop_last()[0] == fields[0]);
    let l0 = field_line(fields[0].0@, fields[0].1@);
    let l1 = field_line(fields[1].0@, fields[1].1@);
    assert(field_lines(fields.drop_last()) == l0);
    assert(fields.last() == fields[1]);
    assert(msg == l0 + "; "@ + l1);
    if keys[0] == a {
        assert(keys[1] == b);
        assert(msg == field_line(a, fields[0].1@) + "; "@ + field_line(b, fields[1].1@));
    } else {
        assert(keys[0] == b && keys[1] == a);
        assert(msg == field_line(b, fields[0].1@) + "; "@ + field_line(a, fields[1].1@));
    }
}

impl AppError {
    /// An internal error for a failure of the data store, quoting its text.
    pub fn database_error(detail: &str) -> (r: AppError)
        ensures
            r.code == AppErrorCode(INTERNAL_ERROR),
            r.message@ == "Database error: "@ + detail@,
    {
        let mut text = String::from_str("Database error: ");
        text.append(detail);
        AppErrorCode(INTERNAL_ERROR).message(text)
    }

    /// An invalid-input error for a request the web framework refused,
    /// quoting its text.
    pub fn invalid_request(detail: &str) -> (r: AppError)
        ensures
            r.code == AppErrorCode(INVALID_INPUT),
            r.message@ == "INVALID_INPUT: "@ + detail@,
    {
        let mut text = String::from_str("INVALID_INPUT: ");
        text.append(detail);
        AppErrorCode(INVALID_INPUT).message(text)
    }

    /// An internal error for a failed JSON conversion, quoting its text.
    pub fn json_error(detail: &str) -> (r: AppError)
        ensures
            r.code == AppErrorCode(INTERNAL_ERROR),
            r.message@ == "JSON serialization error: "@ + detail@,
    {
        let mut text = String::from_str("JSON serialization error: ");
        text.append(detail);
        AppErrorCode(INTERNAL_ERROR).message(text)
    }

    /// An invalid-input error listing each invalid field with its detail,
    /// one line per field, joined with `"; "`.
    pub fn invalid_fields(fields: &Vec<(String, String)>) -> (r: AppError)
        ensures
            r.code == AppErrorCode(INVALID_INPUT),
            r.message@ == field_lines(fields@),
    {
        let mut text = String::new();
        let mut i: usize = 0;
        while i < fields.len()
            invariant
                i <= fields.len(),
                text@ == field_lines(fields@.subrange(0, i as int)),
            decreases fields.len() - i,
        {
            let ghost before = text@;
            if i > 0 {
                text.append("; ");
            }
            text.append("Field '");
            text.append(fields[i].0.as_str());
            text.append("' is invalid: ");
            text.append(fields[i].1.as_str());
            proof {
                let done = fields@.subrange(0, i + 1);
                assert(done.drop_last() =~= fields@.subrange(0, i as int));
                assert(done.last() == fields@[i as int]);
                if i == 0 {
                    assert(before =~= Seq::<char>::empty());
                    assert(text@ =~= field_line(fields@[0].0@, fields@[0].1@));
                } else {
                    assert(text@ =~= before + "; "@ + field_line(fields@[i as int].0@, fields@[i as int].1@));
                }
            }
            i += 1;
        }
        assert(fields@.subrange(0, fields.len() as int) =~= fields@);
        AppErrorCode(INVALID_INPUT).message(text)
    }

    /// Converts a database failure: an internal error quoting its text.
    pub fn from_sqlx_error(err: sqlx::Error) -> (r: AppError)
        ensures
            r.code == AppErrorCode(INTERNAL_ERROR),
            exists|d: Seq<char>| r.message@ == "Database error: "@ + d,
    {
        let text = sqlx_error_text(&err);
        AppError::database_error(text.as_str())
    }

    /// Converts a cache-store failure: an internal error quoting its kind.
    pub fn from_redis_error(kind: redis::ErrorKind) -> (r: AppError)
        ensures
            r.code == AppErrorCode(INTERNAL_ERROR),
            exists|d: Seq<char>| r.message@ == "Database error: "@ + d,
    {
        let text = redis_error_text(&kind);
        AppError::database_error(text.as_str())
    }

    /// Converts a request the web framework refused: an invalid-input error
    /// quoting its text.
    pub fn from_actix_error(err: actix_web::Error) -> (r: AppError)
        ensures
            r.code == AppErrorCode(INVALID_INPUT),
            exists|d: Seq<char>| r.message@ == "INVALID_INPUT: "@ + d,
    {
        let text = actix_error_text(&err);
        AppError::invalid_request(text.as_str())
    }

    /// Converts a JSON failure: an internal error quoting its text.
    pub fn from_json_error(err: serde_json::Error) -> (r: AppError)
        ensures
            r.code == AppErrorCode(INTERNAL_ERROR),
            exists|d: Seq<char>| r.message@ == "JSON serialization error: "@ + d,
    {
        let text = json_error_text(&err);
        AppError::json_error(text.as_str())
    }

    /// Converts an error report: an internal error with a generic message;
    /// the report's own text is not shown.
    pub fn from_report(report: color_eyre::Report) -> (r: AppError)
        ensures
            r.code == AppErrorCode(INTERNAL_ERROR),
            r.message@ == "An unexpected error occurred."@,
    {
        AppErrorCode(INTERNAL_ERROR).message(String::from_str("An unexpected error occurred."))
    }

    /// Converts a failed field validation: an invalid-input error with one
    /// line per invalid field, in the order the validator reports them.
    pub fn from_validation_errors(errors: validator::ValidationErrors) -> (r: AppError)
        ensures
            r.code == AppErrorCode(INVALID_INPUT),
            lists_fields(field_names_of(errors), r.message@),
    {
        let fields = field_details(&errors);
        AppError::invalid_fields(&fields)
    }
}

// The `From` impls below forward to the conversions above and state the
// same. Their result embeds text that only the outside crate renders, so no
// spec value stands for it: `obeys_from_spec` is false, and each `from`
// carries its own `ensures`.
impl From<sqlx::Error> for AppError {
    fn from(err: sqlx::Error) -> (r: AppError)
        ensures
            r.code == AppErrorCode(INTERNAL_ERROR),
            exists|d: Seq<char>| r.message@ == "Database error: "@ + d,
    {
        AppError::from_sqlx_error(err)
    }
}

impl vstd::std_specs::convert::FromSpecImpl<sqlx::Error> for AppError {
    open spec fn obeys_from_spec() -> bool {
        false
    }

    open spec fn from_spec(err: sqlx::Error) -> AppError {
        arbitrary()
    }
}

impl From<redis::ErrorKind> for AppError {
    fn from(err: redis::ErrorKind) -> (r: AppError)
        ensures
            r.code == AppErrorCode(INTERNAL_ERROR),
            exists|d: Seq<char>| r.message@ == "Database error: "@ + d,
    {
        AppError::from_redis_error(err)
    }
}

impl vstd::std_specs::convert::FromSpecImpl<redis::ErrorKind> for AppError {
    open spec fn obeys_from_spec() -> bool {
        false
    }

    open spec fn from_spec(err: redis::ErrorKind) -> AppError {
        arbitrary()
    }
}

impl From<actix_web::Error> for AppError {
    fn from(err: actix_web::Error) -> (r: AppError)
        ensures
            r.code == AppErrorCode(INVALID_INPUT),
            exists|d: Seq<char>| r.message@ == "INVALID_INPUT: "@ + d,
    {
        AppError::from_actix_error(err)
    }
}

impl vstd::std_specs::convert::FromSpecImpl<actix_web::Error> for AppError {
    open spec fn obeys_from_spec() -> bool {
        false
    }

    open spec fn from_spec(err: actix_web::Error) -> AppError {
        arbitrary()
    }
}

impl From<serde_json::Error> for AppError {
    fn from(err: serde_json::Error) -> (r: AppError)
        ensures
            r.code == AppErrorCode(INTERNAL_ERROR),
            exists|d: Seq<char>| r.message@ == "JSON serialization error: "@ + d,
    {
        AppError::from_json_error(err)
    }
}

impl vstd::std_specs::convert::FromSpecImpl<serde_json::Error> for AppError {
    open spec fn obeys_from_spec() -> bool {
        false
    }

    open spec fn from_spec(err: serde_json::Error) -> AppError {
        arbitrary()
    }
}

impl From<color_eyre::Report> for AppError {
    fn from(err: color_eyre::Report) -> (r: AppError)
        ensures
            r.code == AppErrorCode(INTERNAL_ERROR),
            r.message@ == "An unexpected error occurred."@,
    {
        AppError::from_report(err)
    }
}

impl vstd::std_specs::convert::FromSpecImpl<color_eyre::Report> for AppError {
    open spec fn obeys_from_spec() -> bool {
        false
    }

    open spec fn from_spec(err: color_eyre::Report) -> AppError {
        arbitrary()
    }
}

impl From<validator::ValidationErrors> for AppError {
    fn from(errors: validator::ValidationErrors) -> (r: AppError)
        ensures
            r.code == AppErrorCode(INVALID_INPUT),
            lists_fields(field_names_of(errors), r.message@),
    {
        AppError::from_validation_errors(errors)
    }
}

impl vstd::std_specs::convert::FromSpecImpl<validator::ValidationErrors> for AppError {
    open spec fn obeys_from_spec() -> bool {
        false
    }

    open spec fn from_spec(errors: validator::ValidationErrors) -> AppError {
        arbitrary()
    }
}

} // verus!
