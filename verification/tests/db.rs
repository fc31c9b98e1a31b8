use osv::db::{is_record_file, record_file_name, OSV_RECORD_FILE_EXTENSION, RECORDS_DIRECTORY};

#[test]
fn record_file_names() {
    assert_eq!(record_file_name("RUSTSEC-2024-0401").as_deref(), Some("RUSTSEC-2024-0401.json"));
    assert_eq!(record_file_name("GHSA-vp9c-fpxx-744v").as_deref(), Some("GHSA-vp9c-fpxx-744v.json"));
    assert_eq!(record_file_name("a.b").as_deref(), Some("a.b.json"));
    assert_eq!(record_file_name("..."), Some("....json".to_string()));
    assert_eq!(RECORDS_DIRECTORY, "records");
    assert_eq!(OSV_RECORD_FILE_EXTENSION, "json");
}

#[test]
fn ids_that_are_not_file_names_are_refused() {
    for id in ["", ".", "..", "../secret", "a/b", "/etc/passwd", "a/", "./a"] {
        assert_eq!(record_file_name(id), None, "{id}");
    }
}

#[test]
fn record_files_by_extension() {
    assert!(is_record_file("RUSTSEC-2024-0401.json"));
    assert!(is_record_file("a.b.json"));
    assert!(!is_record_file(".json"));
    assert!(!is_record_file("json"));
    assert!(!is_record_file("a.json.tmp"));
    assert!(!is_record_file("a.JSON"));
    assert!(!is_record_file(".."));
    assert!(!is_record_file("a."));
    assert!(is_record_file("..json"));
}
