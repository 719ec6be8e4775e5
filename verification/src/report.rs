//! The diagnostic report: a non-failing, best-effort inspection of where a
//! file name would land and what is there. It reports facts as data and
//! never raises on a missing or unreadable file.

use vstd::prelude::*;
use crate::errors::{Error, ErrorView};
use crate::location::LocationStore;
use crate::pathtext::{join, join_spec};

verus! {

/// What probing the candidate file found: nothing to probe, its size in
/// bytes, or the error met while reading it.
pub type ProbeResult = Option<Result<u64, Error>>;

/// The facts `diagnose` gathered for one file name.
pub struct DiagnosticReport {
    /// The configured location at the time of the call, if any.
    pub configured: Option<String>,
    /// The directory the operation would use.
    pub effective_dir: String,
    /// The full candidate path for the file name, joined without validation.
    pub candidate_path: String,
    /// Whether a file exists at the candidate path.
    pub file_exists: bool,
    /// Absent where the file does not exist; otherwise its byte size, or the
    /// read error encountered while probing readability.
    pub probe: ProbeResult,
}

/// The spec-level image of a probe held in a report.
pub open spec fn probe_view(p: ProbeResult) -> Option<Result<u64, ErrorView>> {
    match p {
        None => None,
        Some(Ok(n)) => Some(Ok(n)),
        Some(Err(e)) => Some(Err(e@)),
    }
}

/// The probe a report must hold for a given raw probe outcome: sizes pass
/// through, a read failure is recorded as `IoReadError` with its cause.
pub open spec fn diag_probe_spec(p: Option<Result<u64, Seq<char>>>) -> Option<
    Result<u64, ErrorView>,
> {
    match p {
        None => None,
        Some(Ok(n)) => Some(Ok(n)),
        Some(Err(m)) => Some(Err(ErrorView::IoReadError(m))),
    }
}

/// Assembles the report for `file_name`. `effective_dir` is the resolved
/// directory, `file_exists` whether a file is present at the joined
/// candidate path, and `probe` the outcome of reading it where it exists
/// (`None` where it does not). Nothing here fails: error conditions are
/// returned as data.
pub fn diagnose(
    store: &LocationStore,
    effective_dir: &str,
    file_name: &str,
    file_exists: bool,
    probe: Option<Result<u64, String>>,
) -> (r: DiagnosticReport)
    ensures
        r.configured is Some <==> store@ is Some,
        r.configured matches Some(p) ==> store@ == Some(p@),
        r.effective_dir@ == effective_dir@,
        r.candidate_path@ == join_spec(effective_dir@, file_name@),
        r.file_exists == file_exists,
        probe_view(r.probe) == diag_probe_spec(
            match probe {
                None => None,
                Some(Ok(n)) => Some(Ok(n)),
                Some(Err(m)) => Some(Err(m@)),
            },
        ),
{
    let candidate_path = join(effective_dir, file_name);
    let wrapped_probe: ProbeResult = match probe {
        None => None,
        Some(Ok(n)) => Some(Ok(n)),
        Some(Err(m)) => Some(Err(Error::IoReadError(m))),
    };
    DiagnosticReport {
        configured: store.get_location(),
        effective_dir: effective_dir.to_owned(),
        candidate_path,
        file_exists,
        probe: wrapped_probe,
    }
}

} // verus!
