use multipart_uploader::{
    step, CaptureAction, CaptureEvent, CaptureState, MultipartError, MultipartValidationError,
    PartHeaders, UploadData,
};

fn part(field: &str, filename: &str, content_type: &str) -> CaptureEvent {
    let disposition = format!("form-data; name=\"{}\"; filename=\"{}\"", field, filename);
    CaptureEvent::Part(PartHeaders {
        content_type: Some(content_type.as_bytes().to_vec()),
        content_disposition: Some(disposition.into_bytes()),
    })
}

fn validation(action: &CaptureAction) -> Option<MultipartValidationError> {
    match action {
        CaptureAction::Fail(MultipartError::ValidationError(e)) => Some(*e),
        _ => None,
    }
}

#[test]
fn end_of_body_without_field_is_not_uploaded() {
    let ud = UploadData::new("image");
    let (state, action) = step(&ud, CaptureState::Seeking, CaptureEvent::End);
    assert!(matches!(state, CaptureState::Done));
    assert!(matches!(action, CaptureAction::Fail(MultipartError::NotUploaded)));
}

#[test]
fn other_field_is_skipped() {
    let ud = UploadData::new("image");
    let (state, action) = step(&ud, CaptureState::Seeking, part("avatar", "a.png", "image/png"));
    assert!(matches!(state, CaptureState::Seeking));
    assert!(matches!(action, CaptureAction::NextPart));
}

#[test]
fn bad_headers_fail_the_capture() {
    let ud = UploadData::new("image");
    let event = CaptureEvent::Part(PartHeaders { content_type: None, content_disposition: None });
    let (state, action) = step(&ud, CaptureState::Seeking, event);
    assert!(matches!(state, CaptureState::Done));
    assert!(matches!(action, CaptureAction::Fail(MultipartError::InvalidContentType)));
}

#[test]
fn listed_mime_is_refused() {
    let mut ud = UploadData::new("image");
    ud.allowed_mimes = vec!["image/gif", "image/png"];
    let (state, action) = step(&ud, CaptureState::Seeking, part("image", "a.png", "image/png"));
    assert!(matches!(state, CaptureState::Done));
    assert_eq!(validation(&action), Some(MultipartValidationError::InvalidMimeType));
}

#[test]
fn whole_capture_is_accepted_with_size() {
    let mut ud = UploadData::new("image");
    ud.lower_size = 3;
    ud.upper_size = Some(10);
    ud.allowed_mimes = vec!["image/gif"];
    let (state, action) = step(&ud, CaptureState::Seeking, part("image", "a.png", "image/png"));
    assert!(matches!(action, CaptureAction::ReadPart));
    let (state, action) = step(&ud, state, CaptureEvent::Chunk(4));
    assert!(matches!(action, CaptureAction::KeepChunk));
    let (state, action) = step(&ud, state, CaptureEvent::Chunk(6));
    assert!(matches!(action, CaptureAction::KeepChunk));
    let (state, action) = step(&ud, state, CaptureEvent::PartEnd);
    assert!(matches!(state, CaptureState::Done));
    match action {
        CaptureAction::Accept(info) => {
            assert_eq!(info.size, 10);
            assert_eq!(info.field, "image");
            assert_eq!(info.name, "a.png");
            assert_eq!(info.extension, Some("png".to_string()));
        }
        _ => panic!("expected the file to be accepted"),
    }
}

#[test]
fn chunk_over_upper_bound_is_refused() {
    let mut ud = UploadData::new("image");
    ud.upper_size = Some(5);
    let (state, _) = step(&ud, CaptureState::Seeking, part("image", "a.png", "image/png"));
    let (state, action) = step(&ud, state, CaptureEvent::Chunk(5));
    assert!(matches!(action, CaptureAction::KeepChunk));
    let (state, action) = step(&ud, state, CaptureEvent::Chunk(1));
    assert!(matches!(state, CaptureState::Done));
    assert_eq!(validation(&action), Some(MultipartValidationError::UpperSizeError));
}

#[test]
fn total_under_lower_bound_is_refused() {
    let mut ud = UploadData::new("image");
    ud.lower_size = 8;
    let (state, _) = step(&ud, CaptureState::Seeking, part("image", "a.png", "image/png"));
    let (state, _) = step(&ud, state, CaptureEvent::Chunk(7));
    let (state, action) = step(&ud, state, CaptureEvent::PartEnd);
    assert!(matches!(state, CaptureState::Done));
    assert_eq!(validation(&action), Some(MultipartValidationError::LowerSizeError));
}

#[test]
fn empty_file_is_accepted_without_bounds() {
    let ud = UploadData::new("image");
    let (state, _) = step(&ud, CaptureState::Seeking, part("image", "a.png", "image/png"));
    let (_, action) = step(&ud, state, CaptureEvent::PartEnd);
    match action {
        CaptureAction::Accept(info) => assert_eq!(info.size, 0),
        _ => panic!("expected the file to be accepted"),
    }
}

#[test]
fn upload_data_new_has_no_constraints() {
    let ud = UploadData::new("file");
    assert_eq!(ud.field, "file");
    assert_eq!(ud.lower_size, 0);
    assert_eq!(ud.upper_size, None);
    assert!(ud.allowed_mimes.is_empty());
}
