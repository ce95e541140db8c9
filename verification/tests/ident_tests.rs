use hashchain::ident::validate_identifier;

#[test]
fn rejects_traversal() {
    assert!(!validate_identifier("../etc/passwd"));
}

#[test]
fn rejects_nested_path() {
    assert!(!validate_identifier("a/b"));
}

#[test]
fn rejects_empty() {
    assert!(!validate_identifier(""));
}

#[test]
fn rejects_dot_components() {
    assert!(!validate_identifier("."));
    assert!(!validate_identifier(".."));
}

#[test]
fn rejects_backslash() {
    assert!(!validate_identifier("a\\b"));
}

#[test]
fn accepts_plain_filename() {
    assert!(validate_identifier("report.pdf"));
}

#[test]
fn accepts_dotted_names() {
    assert!(validate_identifier(".hidden"));
    assert!(validate_identifier("archive.tar.gz"));
}
