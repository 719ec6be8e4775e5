//! The failure kinds of the document location manager.

use vstd::prelude::*;

verus! {

/// Spec-level image of [`Error`]: the same variants, each message as a
/// sequence of characters.
pub enum ErrorView {
    DirectoryCreateError(Seq<char>),
    PersistenceError(Seq<char>),
    IoWriteError(Seq<char>),
    IoReadError(Seq<char>),
    NotFoundError,
    PathValidationError,
}

/// An operation's failure. Variants that stem from filesystem work carry the
/// underlying cause as text; the remaining two describe themselves.
#[derive(Debug, Clone, PartialEq, Eq)]
pub enum Error {
    /// A directory could not be created or accessed.
    DirectoryCreateError(String),
    /// The configuration record could not be written or deleted.
    PersistenceError(String),
    /// File content could not be written.
    IoWriteError(String),
    /// File content could not be read.
    IoReadError(String),
    /// The requested file is absent.
    NotFoundError,
    /// The resolved path escapes the sandboxed default directory.
    PathValidationError,
}

impl View for Error {
    type V = ErrorView;

    open spec fn view(&self) -> ErrorView {
        match self {
            Error::DirectoryCreateError(m) => ErrorView::DirectoryCreateError(m@),
            Error::PersistenceError(m) => ErrorView::PersistenceError(m@),
            Error::IoWriteError(m) => ErrorView::IoWriteError(m@),
            Error::IoReadError(m) => ErrorView::IoReadError(m@),
            Error::NotFoundError => ErrorView::NotFoundError,
            Error::PathValidationError => ErrorView::PathValidationError,
        }
    }
}

/// The descriptive text of an error: a fixed prefix for its kind, followed by
/// the underlying cause where one was recorded.
pub open spec fn message_of(e: ErrorView) -> Seq<char> {
    match e {
        ErrorView::DirectoryCreateError(m) => "Failed to create directory: "@ + m,
        ErrorView::PersistenceError(m) => "Failed to update configuration record: "@ + m,
        ErrorView::IoWriteError(m) => "Failed to write file: "@ + m,
        ErrorView::IoReadError(m) => "Failed to read file: "@ + m,
        ErrorView::NotFoundError => "File does not exist"@,
        ErrorView::PathValidationError => "Invalid file path"@,
    }
}

impl Error {
    /// The error as a descriptive message for display to the caller.
    pub fn message(&self) -> (r: String)
        ensures
            r@ == message_of(self@),
    {
        match self {
            Error::DirectoryCreateError(m) => prefixed("Failed to create directory: ", m),
            Error::PersistenceError(m) => prefixed("Failed to update configuration record: ", m),
            Error::IoWriteError(m) => prefixed("Failed to write file: ", m),
            Error::IoReadError(m) => prefixed("Failed to read file: ", m),
            Error::NotFoundError => "File does not exist".to_owned(),
            Error::PathValidationError => "Invalid file path".to_owned(),
        }
    }
}

/// The spec-level image of an operation's result: the returned path as text,
/// or the error's image.
pub open spec fn path_result_view(r: Result<String, Error>) -> Result<Seq<char>, ErrorView> {
    match r {
        Ok(p) => Ok(p@),
        Err(e) => Err(e@),
    }
}

/// The spec-level image of a filesystem outcome handed in by the shell: unit
/// on success, the cause's text on failure.
pub open spec fn outcome_view(o: Result<(), String>) -> Result<(), Seq<char>> {
    match o {
        Ok(u) => Ok(u),
        Err(m) => Err(m@),
    }
}

/// Concatenates a fixed prefix and a cause into one message.
fn prefixed(prefix: &str, cause: &String) -> (r: String)
    ensures
        r@ == prefix@ + cause@,
{
    let mut r = prefix.to_owned();
    r.append(cause.as_str());
    r
}

} // verus!
