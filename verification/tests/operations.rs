use document_location::errors::Error;
use document_location::greet;
use document_location::location::LocationStore;
use document_location::ops::{locate, save};
use document_location::report::diagnose;

#[test]
fn save_returns_written_path_under_default() {
    let r = save("/data/documents", true, "notes.txt", Ok(()));
    assert_eq!(r, Ok("/data/documents/notes.txt".to_string()));
}

#[test]
fn save_returns_written_path_under_custom_directory() {
    let r = save("/custom/docs", false, "a.bin", Ok(()));
    assert_eq!(r, Ok("/custom/docs/a.bin".to_string()));
}

#[test]
fn save_reports_write_failure() {
    let r = save("/custom/docs", false, "a.bin", Err("disk full".to_string()));
    assert_eq!(r, Err(Error::IoWriteError("disk full".to_string())));
}

#[test]
fn save_rejects_traversal_under_default() {
    let r = save("/data/documents", true, "../../etc/passwd", Ok(()));
    assert_eq!(r, Err(Error::PathValidationError));
}

#[test]
fn save_then_locate_returns_the_same_path() {
    let dir = "/data/documents";
    let saved = save(dir, true, "notes.txt", Ok(())).unwrap();
    let located = locate(dir, true, "notes.txt", true).unwrap();
    assert_eq!(saved, located);
    assert_eq!(located, "/data/documents/notes.txt".to_string());
}

#[test]
fn locate_missing_file_is_not_found() {
    let r = locate("/data/documents", true, "never-written.txt", false);
    assert_eq!(r, Err(Error::NotFoundError));
}

#[test]
fn locate_rejects_traversal_under_default() {
    let r = locate("/data/documents", true, "../secret", true);
    assert_eq!(r, Err(Error::PathValidationError));
}

#[test]
fn diagnose_reports_missing_file() {
    let store = LocationStore::new();
    let report = diagnose(&store, "/data/documents", "ghost.txt", false, None);
    assert_eq!(report.configured, None);
    assert_eq!(report.effective_dir, "/data/documents".to_string());
    assert_eq!(report.candidate_path, "/data/documents/ghost.txt".to_string());
    assert!(!report.file_exists);
    assert!(report.probe.is_none());
}

#[test]
fn diagnose_reports_readable_file_size() {
    let mut store = LocationStore::new();
    store
        .set_location("/custom/docs".to_string(), Ok(()), Ok(()))
        .unwrap();
    let report = diagnose(&store, "/custom/docs", "a.bin", true, Some(Ok(3)));
    assert_eq!(report.configured, Some("/custom/docs".to_string()));
    assert_eq!(report.candidate_path, "/custom/docs/a.bin".to_string());
    assert!(report.file_exists);
    assert_eq!(report.probe, Some(Ok(3)));
}

#[test]
fn diagnose_reports_read_error_as_data() {
    let store = LocationStore::new();
    let report = diagnose(
        &store,
        "/data/documents",
        "locked.txt",
        true,
        Some(Err("permission denied".to_string())),
    );
    assert_eq!(
        report.probe,
        Some(Err(Error::IoReadError("permission denied".to_string())))
    );
}

#[test]
fn error_messages_are_descriptive() {
    assert_eq!(
        Error::DirectoryCreateError("bad disk".to_string()).message(),
        "Failed to create directory: bad disk".to_string()
    );
    assert_eq!(
        Error::PersistenceError("no space".to_string()).message(),
        "Failed to update configuration record: no space".to_string()
    );
    assert_eq!(
        Error::IoWriteError("no space".to_string()).message(),
        "Failed to write file: no space".to_string()
    );
    assert_eq!(
        Error::IoReadError("locked".to_string()).message(),
        "Failed to read file: locked".to_string()
    );
    assert_eq!(Error::NotFoundError.message(), "File does not exist".to_string());
    assert_eq!(Error::PathValidationError.message(), "Invalid file path".to_string());
}

#[test]
fn greet_formats_the_greeting() {
    assert_eq!(
        greet("World"),
        "Hello, World! You've been greeted from Rust!".to_string()
    );
}
