use ureq_multipart::MultipartBuilder;

const DASHES_BODY: &str = "-----------------------------";
const HEADER_PREFIX: &str = "multipart/form-data; boundary=---------------------------";

fn boundary_of(header: &str) -> String {
    assert!(header.starts_with(HEADER_PREFIX));
    header[HEADER_PREFIX.len()..].to_string()
}

fn count_occurrences(hay: &[u8], needle: &[u8]) -> usize {
    if needle.is_empty() || hay.len() < needle.len() {
        return 0;
    }
    (0..=hay.len() - needle.len()).filter(|&i| &hay[i..i + needle.len()] == needle).count()
}

#[test]
fn empty_body_is_closing_line_only() {
    let (header, body) = MultipartBuilder::new().finish().unwrap();
    let boundary = boundary_of(&header);
    assert_eq!(boundary.len(), 29);
    assert!(boundary.bytes().all(|b| b.is_ascii_digit()));
    let expected = format!("{DASHES_BODY}{boundary}--\r\n");
    assert_eq!(String::from_utf8(body).unwrap(), expected);
}

#[test]
fn single_text_field_exact_body() {
    let (header, body) = MultipartBuilder::new()
        .add_text("name", "value")
        .unwrap()
        .finish()
        .unwrap();
    assert!(header.contains("multipart/form-data; boundary="));
    let boundary = boundary_of(&header);
    assert!(boundary.bytes().all(|b| b.is_ascii_digit()));
    let expected = format!(
        "{DASHES_BODY}{boundary}\r\nContent-Disposition: form-data; name=\"name\"\r\n\r\nvalue\r\n{DASHES_BODY}{boundary}--\r\n"
    );
    assert_eq!(String::from_utf8(body).unwrap(), expected);
}

#[test]
fn delimiter_count_equals_field_count() {
    let (header, body) = MultipartBuilder::new()
        .add_text("a", "first")
        .unwrap()
        .add_text("b", "second")
        .unwrap()
        .finish()
        .unwrap();
    let boundary = boundary_of(&header);
    let delim = format!("{DASHES_BODY}{boundary}\r\n");
    let closing = format!("{DASHES_BODY}{boundary}--\r\n");
    assert_eq!(count_occurrences(&body, delim.as_bytes()), 2);
    assert_eq!(count_occurrences(&body, closing.as_bytes()), 1);
    assert!(body.ends_with(closing.as_bytes()));
}

#[test]
fn header_boundary_matches_body_tokens() {
    let (header, body) = MultipartBuilder::new()
        .add_text("a", "alpha")
        .unwrap()
        .add_text("b", "beta")
        .unwrap()
        .finish()
        .unwrap();
    let boundary = boundary_of(&header);
    // Two delimiters and one closing line each embed the token once; the
    // field names and values hold no digits, so no other run matches.
    assert_eq!(count_occurrences(&body, boundary.as_bytes()), 3);
}

#[test]
fn boundaries_are_distinct_across_instances() {
    let mut seen = std::collections::HashSet::new();
    for _ in 0..1000 {
        let (header, _) = MultipartBuilder::new().finish().unwrap();
        seen.insert(boundary_of(&header));
    }
    assert_eq!(seen.len(), 1000);
}

#[test]
fn stream_without_content_type_defaults_to_octet_stream() {
    let (header, body) = MultipartBuilder::new()
        .add_stream(b"raw bytes", "field", None, None)
        .unwrap()
        .finish()
        .unwrap();
    let boundary = boundary_of(&header);
    let expected = format!(
        "{DASHES_BODY}{boundary}\r\nContent-Disposition: form-data; name=\"field\"\r\nContent-Type: application/octet-stream\r\n\r\nraw bytes\r\n{DASHES_BODY}{boundary}--\r\n"
    );
    assert_eq!(String::from_utf8(body).unwrap(), expected);
}

#[test]
fn stream_with_content_type_keeps_it_verbatim() {
    let (_, body) = MultipartBuilder::new()
        .add_stream(b"x", "field", Some("notes.md"), Some("text/markdown"))
        .unwrap()
        .finish()
        .unwrap();
    let text = String::from_utf8(body).unwrap();
    assert!(text.contains(
        "Content-Disposition: form-data; name=\"field\"; filename=\"notes.md\"\r\nContent-Type: text/markdown\r\n\r\nx\r\n"
    ));
    assert!(!text.contains("application/octet-stream"));
}

#[test]
fn file_bytes_carry_filename_and_exact_content() {
    let content = b"sample file contents\nsecond line\n";
    let (_, body) = MultipartBuilder::new()
        .add_file_bytes("test", "sample.txt", content)
        .unwrap()
        .finish()
        .unwrap();
    assert_eq!(count_occurrences(&body, content), 1);
    let text = String::from_utf8(body).unwrap();
    assert!(text.contains("Content-Disposition: form-data; name=\"test\"; filename=\"sample.txt\""));
    assert!(text.contains("Content-Type: text/plain"));
}

#[test]
fn multiple_files_keep_list_order() {
    let files: [(&str, &[u8]); 3] = [
        ("data/one.txt", b"first body"),
        ("data/two.bin", b"second body"),
        ("three.txt", b"third body"),
    ];
    let mut builder = MultipartBuilder::new();
    for (path, content) in files {
        let name = ureq_multipart::opt_filename(path).unwrap();
        builder = builder.add_file_bytes(&name, path, content).unwrap();
    }
    let (_, body) = builder.finish().unwrap();
    let text = String::from_utf8(body).unwrap();
    let first = text.find("name=\"one.txt\"").unwrap();
    let second = text.find("name=\"two.bin\"").unwrap();
    let third = text.find("name=\"three.txt\"").unwrap();
    assert!(first < second);
    assert!(second < third);
}
