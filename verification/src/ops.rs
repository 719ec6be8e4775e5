//! The file operations: saving a file, locating one, and assembling the
//! results. Each resolves against the effective directory and the validated
//! path; the content I/O itself happens in the shell, whose outcome comes in
//! as a plain value.

use vstd::prelude::*;
use crate::errors::{Error, ErrorView, outcome_view, path_result_view};
use crate::pathtext::safe_file_name;
use crate::resolver::build_path_spec;

verus! {

/// The result of saving under `dir`: the validated path where building it
/// and writing the content both succeeded, otherwise the first failure.
pub open spec fn save_spec(
    dir: Seq<char>,
    is_default: bool,
    name: Seq<char>,
    written: Result<(), Seq<char>>,
) -> Result<Seq<char>, ErrorView> {
    match build_path_spec(dir, is_default, name) {
        Err(e) => Err(e),
        Ok(p) => match written {
            Ok(u) => Ok(p),
            Err(m) => Err(ErrorView::IoWriteError(m)),
        },
    }
}

/// The result of locating `name` under `dir`: the validated path where it
/// exists, `NotFoundError` where it does not, and the validation failure
/// where no path could be built at all.
pub open spec fn locate_spec(
    dir: Seq<char>,
    is_default: bool,
    name: Seq<char>,
    file_exists: bool,
) -> Result<Seq<char>, ErrorView> {
    match build_path_spec(dir, is_default, name) {
        Err(e) => Err(e),
        Ok(p) => if file_exists {
            Ok(p)
        } else {
            Err(ErrorView::NotFoundError)
        },
    }
}

/// Concludes a save: `written` is the outcome of writing the caller's bytes
/// at the path built for `file_name` under `dir`, attempted only after
/// [`crate::resolver::build_path`] succeeded; where it failed instead, the
/// value of `written` is immaterial and the validation failure is returned.
/// On success the path written to is returned.
pub fn save(dir: &str, is_default: bool, file_name: &str, written: Result<(), String>) -> (r:
    Result<String, Error>)
    ensures
        path_result_view(r) == save_spec(dir@, is_default, file_name@, outcome_view(written)),
{
    match crate::resolver::build_path(dir, is_default, file_name) {
        Err(e) => Err(e),
        Ok(p) => match written {
            Ok(_) => Ok(p),
            Err(m) => Err(Error::IoWriteError(m)),
        },
    }
}

/// Concludes a locate: `file_exists` says whether a file is present at the
/// path built for `file_name` under `dir`. Existence alone is checked, not
/// readability: an absent file is `NotFoundError`, a present one returns the
/// validated path.
pub fn locate(dir: &str, is_default: bool, file_name: &str, file_exists: bool) -> (r: Result<
    String,
    Error,
>)
    ensures
        path_result_view(r) == locate_spec(dir@, is_default, file_name@, file_exists),
{
    match crate::resolver::build_path(dir, is_default, file_name) {
        Err(e) => Err(e),
        Ok(p) => if file_exists {
            Ok(p)
        } else {
            Err(Error::NotFoundError)
        },
    }
}

} // verus!
