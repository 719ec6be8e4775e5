//! The laws the manager obeys, each proved over the spec functions that the
//! operations' contracts are stated with.

use vstd::prelude::*;
use crate::errors::ErrorView;
use crate::location::{clear_outcome_state, load_outcome_state, record_content, set_outcome_state};
use crate::ops::{locate_spec, save_spec};
use crate::pathtext::{
    has_parent_segment, is_absolute, join_spec, safe_file_name, trim_spec,
};
use crate::resolver::{build_path_spec, effective_dir_spec};

verus! {

/// Setting a location whose directory creation and persistence both
/// succeeded, then reading the location back, returns exactly the path that
/// was set.
pub proof fn lemma_set_then_get_round_trip(pre: Option<Seq<char>>, path: Seq<char>)
    ensures
        set_outcome_state(pre, path, true, true) == Some(path),
{
}

/// A location that was set and persisted is recovered after a restart that
/// reloads it from the configuration record — unless its directory was
/// deleted externally, in which case the store falls back to unset. Holds
/// for every path without surrounding whitespace, which loading trims away.
pub proof fn lemma_persisted_location_recovered(path: Seq<char>)
    requires
        trim_spec(path) == path,
    ensures
        load_outcome_state(record_content(Some(path)), true) == Some(path),
        load_outcome_state(record_content(Some(path)), false) is None,
{
}

/// A location once recovered from the configuration record is stable: the
/// record written for it reloads to the same location on every further
/// restart, whatever text the first record held, because trimming is
/// idempotent.
pub proof fn lemma_recovered_location_is_stable(content: Seq<char>)
    ensures
        load_outcome_state(record_content(load_outcome_state(Some(content), true)), true)
            == load_outcome_state(Some(content), true),
{
    crate::pathtext::lemma_trim_idempotent(content);
}

/// Clearing a location when none is set leaves the state exactly as it was,
/// and a clear whose record removal succeeded never errors; with no record
/// present the removal is a no-op that succeeds.
pub proof fn lemma_clear_when_unset_is_noop(pre: Option<Seq<char>>)
    requires
        pre is None,
    ensures
        clear_outcome_state(pre, true) == pre,
        record_content(pre) is None,
{
}

/// Under the default directory, every accepted file name yields a path that
/// stays lexically inside that directory: the directory's own text, one
/// separator, then the name — which itself is relative and free of
/// parent-directory segments.
pub proof fn lemma_default_build_path_contained(dir: Seq<char>, name: Seq<char>)
    requires
        build_path_spec(dir, true, name) is Ok,
    ensures
        safe_file_name(name),
        build_path_spec(dir, true, name)->Ok_0 == dir + seq!['/'] + name,
        build_path_spec(dir, true, name)->Ok_0.subrange(0, dir.len() as int) == dir,
        build_path_spec(dir, true, name)->Ok_0[dir.len() as int] == '/',
{
    let p = build_path_spec(dir, true, name)->Ok_0;
    assert(p == dir + seq!['/'] + name);
    assert(p.subrange(0, dir.len() as int) =~= dir);
}

/// Under the default directory, an absolute file name or one containing a
/// parent-directory segment is always rejected as a validation failure,
/// never turned into a path.
pub proof fn lemma_default_rejects_escape(dir: Seq<char>, name: Seq<char>)
    requires
        is_absolute(name) || has_parent_segment(name),
    ensures
        build_path_spec(dir, true, name) == Err::<Seq<char>, ErrorView>(
            ErrorView::PathValidationError,
        ),
{
}

/// A successful save, followed by a locate of the same file name against the
/// same directory once the written file exists, succeeds and returns the
/// very path the save returned.
pub proof fn lemma_save_then_locate(dir: Seq<char>, is_default: bool, name: Seq<char>)
    requires
        save_spec(dir, is_default, name, Ok(())) is Ok,
    ensures
        locate_spec(dir, is_default, name, true) == save_spec(dir, is_default, name, Ok(())),
{
}

/// Locating a valid file name at which no file exists returns
/// `NotFoundError`.
pub proof fn lemma_locate_missing_is_not_found(dir: Seq<char>, is_default: bool, name: Seq<char>)
    requires
        is_default ==> safe_file_name(name),
    ensures
        locate_spec(dir, is_default, name, false) == Err::<Seq<char>, ErrorView>(
            ErrorView::NotFoundError,
        ),
{
}

/// With no location configured the effective directory is the `documents`
/// subdirectory of the platform base; with one configured it is exactly the
/// configured path.
pub proof fn lemma_effective_directory(base: Seq<char>, configured: Seq<char>)
    ensures
        effective_dir_spec(None, base) == base + seq!['/'] + "documents"@,
        effective_dir_spec(Some(configured), base) == configured,
{
    reveal_strlit("documents");
    assert(!is_absolute("documents"@));
    assert(effective_dir_spec(None, base) == join_spec(base, "documents"@));
}

} // verus!
