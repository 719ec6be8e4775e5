//! The path resolver: computes the directory in effect for an operation from
//! the store's current value, and joins caller-supplied file names into
//! validated paths under it.

use vstd::prelude::*;
use crate::errors::{Error, ErrorView, outcome_view, path_result_view};
use crate::location::LocationStore;
use crate::pathtext::{is_safe_file_name, join, join_spec, safe_file_name};

verus! {

/// The directory in effect for a given state: the configured path where one
/// is set, otherwise the fixed `documents` subdirectory of the platform's
/// application data directory.
pub open spec fn effective_dir_spec(loc: Option<Seq<char>>, default_base: Seq<char>) -> Seq<
    char,
> {
    match loc {
        Some(p) => p,
        None => join_spec(default_base, "documents"@),
    }
}

/// The result of resolving a directory whose creation ended as `created`
/// says: the directory itself, or the creation failure with its cause.
pub open spec fn resolve_spec(dir: Seq<char>, created: Result<(), Seq<char>>) -> Result<
    Seq<char>,
    ErrorView,
> {
    match created {
        Ok(u) => Ok(dir),
        Err(m) => Err(ErrorView::DirectoryCreateError(m)),
    }
}

/// The result of building a path for `name` under `dir`: rejected when the
/// directory is the sandboxed default and the name is not safe, the lexical
/// join otherwise. Under a configured custom directory the name is trusted
/// and containment is deliberately not re-verified.
pub open spec fn build_path_spec(dir: Seq<char>, is_default: bool, name: Seq<char>) -> Result<
    Seq<char>,
    ErrorView,
> {
    if is_default && !safe_file_name(name) {
        Err(ErrorView::PathValidationError)
    } else {
        Ok(join_spec(dir, name))
    }
}

/// The directory the next operation must use, together with whether it is
/// the sandboxed default rather than a configured location. The caller
/// creates the directory (idempotently) and completes resolution with
/// [`resolve_effective_directory`].
pub fn effective_directory(store: &LocationStore, default_base: &str) -> (r: (String, bool))
    ensures
        r.0@ == effective_dir_spec(store@, default_base@),
        r.1 == (store@ is None),
{
    match store.get_location() {
        Some(p) => (p, false),
        None => (join(default_base, "documents"), true),
    }
}

/// Completes resolution of the effective directory: `created` is the outcome
/// of creating `dir` with its parents, a no-op where it already existed. On
/// success the directory exists and is returned; a failure carries the
/// underlying cause.
pub fn resolve_effective_directory(dir: String, created: Result<(), String>) -> (r: Result<
    String,
    Error,
>)
    ensures
        path_result_view(r) == resolve_spec(dir@, outcome_view(created)),
{
    match created {
        Ok(_) => Ok(dir),
        Err(m) => Err(Error::DirectoryCreateError(m)),
    }
}

/// Joins `file_name` onto the effective directory, as [`build_path_spec`]
/// describes: under the default directory an absolute name or one with a
/// parent-directory segment is rejected, so the result never leaves it.
pub fn build_path(dir: &str, is_default: bool, file_name: &str) -> (r: Result<String, Error>)
    ensures
        path_result_view(r) == build_path_spec(dir@, is_default, file_name@),
{
    if is_default && !is_safe_file_name(file_name) {
        Err(Error::PathValidationError)
    } else {
        Ok(join(dir, file_name))
    }
}

} // verus!
