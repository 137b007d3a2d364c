use meowith_connector::headers::{content_disposition, extract_filename};

#[test]
fn filename_quoted() {
    let name = extract_filename("attachment; filename=\"report.pdf\"");
    assert_eq!(name, Some("report.pdf".to_string()));
}

#[test]
fn filename_unquoted() {
    assert_eq!(extract_filename("inline; filename=notes.txt"), Some("notes.txt".to_string()));
}

#[test]
fn filename_absent_is_none() {
    assert_eq!(extract_filename("attachment"), None);
    assert_eq!(extract_filename(""), None);
}

#[test]
fn filename_round_trip() {
    let header = content_disposition("report.pdf");
    assert_eq!(header, "attachment; filename=\"report.pdf\"");
    assert_eq!(extract_filename(&header), Some("report.pdf".to_string()));
}

#[test]
fn filename_first_marker_wins() {
    let name = extract_filename("attachment; filename=\"a.txt\"; filename=\"b.txt\"");
    assert_eq!(name, Some("a.txt\"; filename=\"b.txt".to_string()));
}

#[test]
fn filename_only_quotes_is_empty() {
    assert_eq!(extract_filename("filename=\"\"\""), Some(String::new()));
}
