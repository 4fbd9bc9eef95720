use multipart_uploader::{FileInfo, MultipartError, PartHeaders};

fn headers(content_type: Option<&str>, disposition: Option<&str>) -> PartHeaders {
    PartHeaders {
        content_type: content_type.map(|v| v.as_bytes().to_vec()),
        content_disposition: disposition.map(|v| v.as_bytes().to_vec()),
    }
}

fn generate_headers(field: &str, filename: &str, content_type: &str) -> PartHeaders {
    let disposition = format!(
        "form-data; app=\"naira\"; name=\"{}\"; filename=\"{}\"",
        field, filename
    );
    headers(Some(content_type), Some(&disposition))
}

#[test]
fn test_create_from_valid_headers() {
    let headers = headers(
        Some("image/jpeg"),
        Some("form-data; name=\"image\"; filename=\"image.jpg\""),
    );

    let file_info = FileInfo::create(&headers).unwrap();
    assert_eq!(file_info.name, "image.jpg");
    assert_eq!(file_info.field, "image");
    assert_eq!(file_info.content_type, "image/jpeg");
}

#[test]
fn test_create_from_missing_headers() {
    let headers = headers(Some("image/jpeg"), None);

    assert!(matches!(
        FileInfo::create(&headers),
        Err(MultipartError::InvalidContentDisposition)
    ));
}

#[test]
fn test_create_from_invalid_content_disposition() {
    let headers = headers(Some("image/jpeg"), Some("invalid"));

    assert!(matches!(
        FileInfo::create(&headers),
        Err(MultipartError::InvalidContentDisposition)
    ));
}

#[test]
fn test_parse_content_disposition() {
    let content_disposition = "form-data; name=\"image\"; filename=\"image.jpg\"";
    let variables = FileInfo::parse_content_disposition(content_disposition);

    assert_eq!(variables.get("name"), Some(&"image".to_string()));
    assert_eq!(variables.get("filename"), Some(&"image.jpg".to_string()));
}

#[test]
fn test_file_info_create() {
    let headers = generate_headers("attachment", "test.png", "image/png");
    let result = FileInfo::create(&headers);

    assert!(result.is_ok());
    let file_info = result.unwrap();
    assert_eq!(file_info.field, "attachment");
    assert_eq!(file_info.name, "test.png");
    assert_eq!(file_info.content_type, "image/png");
}

#[test]
fn create_sets_extension_size_and_vars() {
    let headers = generate_headers("doc", "report.final.pdf", "application/pdf");
    let info = FileInfo::create(&headers).unwrap();
    assert_eq!(info.extension, Some("pdf".to_string()));
    assert_eq!(info.size, 0);
    assert_eq!(info.content_disposition_vars.get("app"), Some(&"naira".to_string()));
    assert!(!info.content_disposition_vars.contains_key("form-data"));
}

#[test]
fn extension_without_dot_is_whole_name() {
    let headers = generate_headers("doc", "README", "text/plain");
    let info = FileInfo::create(&headers).unwrap();
    assert_eq!(info.extension, Some("README".to_string()));
}

#[test]
fn extension_after_trailing_dot_is_empty() {
    let headers = generate_headers("doc", "archive.", "text/plain");
    let info = FileInfo::create(&headers).unwrap();
    assert_eq!(info.extension, Some(String::new()));
}

#[test]
fn missing_content_type_is_invalid() {
    let headers = headers(None, Some("form-data; name=\"a\"; filename=\"b\""));
    assert!(matches!(
        FileInfo::create(&headers),
        Err(MultipartError::InvalidContentType)
    ));
}

#[test]
fn content_type_with_control_byte_is_invalid() {
    let headers = PartHeaders {
        content_type: Some(vec![b'a', 0x01, b'b']),
        content_disposition: Some(b"form-data; name=\"a\"; filename=\"b\"".to_vec()),
    };
    assert!(matches!(
        FileInfo::create(&headers),
        Err(MultipartError::InvalidContentType)
    ));
}

#[test]
fn content_type_checked_before_disposition() {
    let headers = headers(None, None);
    assert!(matches!(
        FileInfo::create(&headers),
        Err(MultipartError::InvalidContentType)
    ));
}

#[test]
fn tab_in_header_value_is_text() {
    let headers = headers(Some("text/plain"), Some("form-data;\tname=a; filename=b.txt"));
    let info = FileInfo::create(&headers).unwrap();
    assert_eq!(info.field, "a");
    assert_eq!(info.name, "b.txt");
}

#[test]
fn disposition_without_filename_is_invalid() {
    let headers = headers(Some("text/plain"), Some("form-data; name=\"a\""));
    assert!(matches!(
        FileInfo::create(&headers),
        Err(MultipartError::InvalidContentDisposition)
    ));
}

#[test]
fn parse_trims_and_strips_quotes() {
    let vars = FileInfo::parse_content_disposition("  key  =  \"\"v a l\"\"  ; other=x=y;;=z");
    assert_eq!(vars.get("key"), Some(&"v a l".to_string()));
    assert_eq!(vars.get("other"), Some(&"x=y".to_string()));
    assert_eq!(vars.get(""), Some(&"z".to_string()));
    assert_eq!(vars.get("missing"), None);
}

#[test]
fn parse_later_key_wins() {
    let vars = FileInfo::parse_content_disposition("name=first; name=second");
    assert_eq!(vars.get("name"), Some(&"second".to_string()));
}

#[test]
fn parse_empty_has_no_vars() {
    let vars = FileInfo::parse_content_disposition("");
    assert!(!vars.contains_key(""));
    assert!(!vars.contains_key("name"));
}

#[test]
fn default_file_info_is_empty() {
    let info = FileInfo::default();
    assert_eq!(info.name, "");
    assert_eq!(info.size, 0);
    assert_eq!(info.extension, None);
}

#[test]
fn vars_insert_replaces_value() {
    let mut vars = multipart_uploader::DispositionVars::new();
    assert!(!vars.contains_key("name"));
    vars.insert("name".to_string(), "a".to_string());
    vars.insert("name".to_string(), "b".to_string());
    assert_eq!(vars.get("name"), Some(&"b".to_string()));
    assert!(vars.contains_key("name"));
}
