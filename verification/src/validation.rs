//! Checks shared by many requests.
use vstd::prelude::*;

use crate::error::{failure, Error};
use crate::text::{fail2, required_text_failure, validate_required_text};

verus! {

/// Why an optional id that must be positive is refused.
pub open spec fn optional_positive_i64_failure(field: Seq<char>, value: Option<i64>) -> Option<
    Seq<char>,
> {
    match value {
        Some(v) => if v <= 0 {
            Some(field + " must be greater than 0"@)
        } else {
            None
        },
        None => None,
    }
}

/// Checks an optional id that must be positive where it is given.
pub fn optional_positive_i64(field: &str, value: Option<i64>) -> (r: Result<(), Error>)
    ensures
        failure(r) == optional_positive_i64_failure(field@, value),
{
    match value {
        Some(v) => if v <= 0 {
            fail2(field, " must be greater than 0")
        } else {
            Ok(())
        },
        None => Ok(()),
    }
}

/// Why an opaque string id is refused: it must not be blank nor hold control
/// characters.
pub open spec fn string_id_failure(field: Seq<char>, value: Seq<char>) -> Option<Seq<char>> {
    required_text_failure(field, value)
}

/// Checks an opaque string id handed out by Telegram.
pub fn string_id(field: &str, value: &str) -> (r: Result<(), Error>)
    ensures
        failure(r) == string_id_failure(field@, value@),
{
    validate_required_text(field, value)
}

/// Why an optional required-text field is refused.
pub open spec fn optional_required_text_failure(field: Seq<char>, value: Option<String>) -> Option<
    Seq<char>,
> {
    match value {
        Some(v) => required_text_failure(field, v@),
        None => None,
    }
}

/// Checks a text that may be left out but, where given, must not be blank nor
/// hold control characters.
pub fn optional_required_text(field: &str, value: &Option<String>) -> (r: Result<(), Error>)
    ensures
        failure(r) == optional_required_text_failure(field@, *value),
{
    match value {
        Some(v) => validate_required_text(field, v.as_str()),
        None => Ok(()),
    }
}

} // verus!
