use document_location::errors::Error;
use document_location::location::LocationStore;
use document_location::pathtext::{is_safe_file_name, join, trim_text};
use document_location::resolver::{
    build_path, effective_directory, resolve_effective_directory,
};

#[test]
fn default_directory_is_documents_under_app_data() {
    let store = LocationStore::new();
    let (dir, is_default) = effective_directory(&store, "/home/user/.local/share/app");
    assert_eq!(dir, "/home/user/.local/share/app/documents".to_string());
    assert!(is_default);
}

#[test]
fn configured_directory_is_used_as_given() {
    let mut store = LocationStore::new();
    store
        .set_location("/custom/docs".to_string(), Ok(()), Ok(()))
        .unwrap();
    let (dir, is_default) = effective_directory(&store, "/home/user/.local/share/app");
    assert_eq!(dir, "/custom/docs".to_string());
    assert!(!is_default);
}

#[test]
fn resolve_returns_created_directory() {
    let r = resolve_effective_directory("/data/documents".to_string(), Ok(()));
    assert_eq!(r, Ok("/data/documents".to_string()));
}

#[test]
fn resolve_reports_creation_failure() {
    let r = resolve_effective_directory(
        "/data/documents".to_string(),
        Err("read-only filesystem".to_string()),
    );
    assert_eq!(
        r,
        Err(Error::DirectoryCreateError(
            "read-only filesystem".to_string()
        ))
    );
}

#[test]
fn traversal_names_fail_validation_under_default() {
    let r = build_path("/data/documents", true, "../../etc/passwd");
    assert_eq!(r, Err(Error::PathValidationError));
}

#[test]
fn parent_segment_anywhere_fails_validation_under_default() {
    assert_eq!(
        build_path("/data/documents", true, "a/../b"),
        Err(Error::PathValidationError)
    );
    assert_eq!(
        build_path("/data/documents", true, ".."),
        Err(Error::PathValidationError)
    );
    assert_eq!(
        build_path("/data/documents", true, "x/.."),
        Err(Error::PathValidationError)
    );
}

#[test]
fn absolute_names_fail_validation_under_default() {
    assert_eq!(
        build_path("/data/documents", true, "/etc/passwd"),
        Err(Error::PathValidationError)
    );
}

#[test]
fn plain_names_pass_validation_under_default() {
    let r = build_path("/data/documents", true, "notes.txt");
    assert_eq!(r, Ok("/data/documents/notes.txt".to_string()));
    let nested = build_path("/data/documents", true, "project/notes.txt");
    assert_eq!(nested, Ok("/data/documents/project/notes.txt".to_string()));
    let dots = build_path("/data/documents", true, "..hidden..");
    assert_eq!(dots, Ok("/data/documents/..hidden..".to_string()));
}

#[test]
fn custom_directory_is_trusted_and_not_validated() {
    let r = build_path("/custom/docs", false, "../escape.txt");
    assert_eq!(r, Ok("/custom/docs/../escape.txt".to_string()));
    let abs = build_path("/custom/docs", false, "/elsewhere/file.txt");
    assert_eq!(abs, Ok("/elsewhere/file.txt".to_string()));
}

#[test]
fn safe_file_name_decisions() {
    assert!(is_safe_file_name("notes.txt"));
    assert!(is_safe_file_name("a/b/c.txt"));
    assert!(is_safe_file_name("...three.dots"));
    assert!(!is_safe_file_name("../x"));
    assert!(!is_safe_file_name("a/.."));
    assert!(!is_safe_file_name("/abs"));
}

#[test]
fn join_appends_behind_one_separator() {
    assert_eq!(join("/data", "documents"), "/data/documents".to_string());
    assert_eq!(join("/data", "/override"), "/override".to_string());
    assert_eq!(join("", "x"), "/x".to_string());
}

#[test]
fn trim_text_removes_only_surrounding_whitespace() {
    assert_eq!(trim_text("  a b \t"), "a b".to_string());
    assert_eq!(trim_text("inner"), "inner".to_string());
    assert_eq!(trim_text(""), "".to_string());
}
