use ureq_multipart::{mime_filename, opt_filename};

#[test]
fn filename_is_final_component() {
    assert_eq!(opt_filename("dir/sub/report.pdf"), Some("report.pdf".to_string()));
    assert_eq!(opt_filename("report.pdf"), Some("report.pdf".to_string()));
}

#[test]
fn filename_absent_for_empty_or_trailing_slash() {
    assert_eq!(opt_filename(""), None);
    assert_eq!(opt_filename("dir/"), None);
    assert_eq!(opt_filename("/"), None);
}

#[test]
fn mime_inferred_from_extension() {
    let (mime, filename) = mime_filename("notes/readme.txt");
    assert_eq!(mime, "text/plain");
    assert_eq!(filename, Some("readme.txt".to_string()));
}

#[test]
fn mime_falls_back_to_octet_stream() {
    let (mime, filename) = mime_filename("blob.unknownext");
    assert_eq!(mime, "application/octet-stream");
    assert_eq!(filename, Some("blob.unknownext".to_string()));
}
