//! Helpers that check request values and report failures as `AppError`s.

use vstd::prelude::*;
use super::AppError;
use crate::text::{chars_of, concat, contains_char, dec_int, has_char, i64_string};

verus! {

/// Whether `r` is the validation error for `field` with the given message.
pub open spec fn is_validation_error(r: AppError, field: Seq<char>, message: Seq<char>) -> bool {
    r matches AppError::ValidationError { field: f, message: m } && f@ == field && m@ == message
}

/// Checks a path: it must not be empty and must not contain a NUL character.
pub fn validate_path(path: &str) -> (r: Result<(), AppError>)
    ensures
        path@.len() == 0 ==> (r matches Err(e) && is_validation_error(e, "path"@, "Path cannot be empty"@)),
        path@.len() > 0 && has_char(path@, '\0') ==> (r matches Err(e) && is_validation_error(
            e,
            "path"@,
            "Path contains null characters"@,
        )),
        path@.len() > 0 && !has_char(path@, '\0') ==> r is Ok,
{
    let v = chars_of(path);
    if v.len() == 0 {
        return Err(
            AppError::ValidationError {
                field: String::from_str("path"),
                message: String::from_str("Path cannot be empty"),
            },
        );
    }
    if contains_char(&v, '\0') {
        return Err(
            AppError::ValidationError {
                field: String::from_str("path"),
                message: String::from_str("Path contains null characters"),
            },
        );
    }
    Ok(())
}

/// Checks an optional number: when present it must be positive; otherwise
/// the error names the field and says `Value must be positive, got <v>`.
pub fn validate_positive_number(value: Option<i64>, field: &str) -> (r: Result<(), AppError>)
    ensures
        match value {
            Some(v) if v <= 0 => r matches Err(e) && is_validation_error(
                e,
                field@,
                "Value must be positive, got "@ + dec_int(v as int),
            ),
            _ => r is Ok,
        },
{
    if let Some(v) = value {
        if v <= 0 {
            let n = i64_string(v);
            return Err(
                AppError::ValidationError {
                    field: String::from_str(field),
                    message: concat("Value must be positive, got ", n.as_str()),
                },
            );
        }
    }
    Ok(())
}

/// Checks that the given paths exist; `present[i]` says whether
/// `paths[i]` was found on the file system. The first missing path is
/// reported as `Path does not exist: <path>`.
pub fn validate_paths_exist(paths: &Vec<String>, present: &Vec<bool>) -> (r: Result<(), AppError>)
    requires
        paths.len() == present.len(),
    ensures
        (forall|i: int| 0 <= i < present.len() ==> present@[i]) ==> r is Ok,
        !(forall|i: int| 0 <= i < present.len() ==> present@[i]) ==> exists|k: int|
            0 <= k < present.len() && !present@[k] && (forall|j: int| 0 <= j < k ==> present@[j])
                && (r matches Err(AppError::NotFound(m)) && m@ == "Path does not exist: "@
                + paths@[k]@),
{
    let mut i: usize = 0;
    while i < paths.len()
        invariant
            paths.len() == present.len(),
            i <= paths.len(),
            forall|j: int| 0 <= j < i ==> present@[j],
        decreases paths.len() - i,
    {
        if !present[i] {
            return Err(AppError::NotFound(concat("Path does not exist: ", paths[i].as_str())));
        }
        i += 1;
    }
    Ok(())
}

} // verus!
