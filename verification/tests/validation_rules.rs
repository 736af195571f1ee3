//! Unit tests of the extractor's decisions, the validator's aggregation and
//! the error taxonomy.

use jetbrains_web_app::errors::CreatePostError;
use jetbrains_web_app::extract::{
    accept_image_chunk, apply_avatar_url, apply_image_data, apply_text, apply_username,
    classify_field, field_read_error, image_part_disposition, is_blank,
    missing_field_name_error, multipart_frame_error, FieldKind, RawFields,
};
use jetbrains_web_app::domain::MAX_FILE_SIZE;
use jetbrains_web_app::validate::validate_submission;

#[test]
fn classify_field_recognizes_the_four_names() {
    assert!(matches!(classify_field("text"), FieldKind::Text));
    assert!(matches!(classify_field("username"), FieldKind::Username));
    assert!(matches!(classify_field("user_avatar_url"), FieldKind::AvatarUrl));
    assert!(matches!(classify_field("image"), FieldKind::Image));
    assert!(matches!(classify_field("texts"), FieldKind::Unknown));
    assert!(matches!(classify_field(""), FieldKind::Unknown));
}

#[test]
fn blank_values_are_rejected_as_missing() {
    assert!(is_blank(""));
    assert!(is_blank(" \t\r\n"));
    assert!(!is_blank(" a "));

    let mut f = RawFields::new();
    let e = apply_text(&mut f, "   ".to_string()).unwrap_err();
    assert_eq!(e.status_code(), 400);
    assert!(e.message().contains("Text is required"));
    assert!(f.text.is_none());

    let e = apply_username(&mut f, "".to_string()).unwrap_err();
    assert!(e.message().contains("Username is required"));
    assert!(f.username.is_none());
}

#[test]
fn empty_avatar_url_counts_as_absent() {
    let mut f = RawFields::new();
    apply_avatar_url(&mut f, "".to_string());
    assert!(f.user_avatar_url.is_none());
    apply_avatar_url(&mut f, "http://example.com/a.png".to_string());
    assert_eq!(f.user_avatar_url.as_deref(), Some("http://example.com/a.png"));
}

#[test]
fn image_disposition_skips_nameless_and_rejects_wrong_type() {
    assert_eq!(image_part_disposition(None, None).unwrap(), false);
    let empty = String::new();
    assert_eq!(image_part_disposition(Some(&empty), None).unwrap(), false);

    let name = "logo.png".to_string();
    let png = "image/png".to_string();
    let jpeg = "image/jpeg".to_string();
    assert_eq!(image_part_disposition(Some(&name), None).unwrap(), true);
    assert_eq!(image_part_disposition(Some(&name), Some(&png)).unwrap(), true);
    let e = image_part_disposition(Some(&name), Some(&jpeg)).unwrap_err();
    assert!(matches!(e, CreatePostError::InvalidFileType));
    assert_eq!(e.status_code(), 400);
    assert_eq!(e.message(), "Invalid file type. Supported types is only PNG");
}

#[test]
fn oversized_image_part_is_rejected_before_any_store() {
    let mut f = RawFields::new();
    let data = vec![0u8; MAX_FILE_SIZE + 1];
    let e = apply_image_data(&mut f, data).unwrap_err();
    assert!(matches!(e, CreatePostError::FileTooLarge));
    assert_eq!(e.status_code(), 400);
    assert_eq!(e.message(), "File too large. Maximum size is 5MB");
    assert!(f.image_data.is_none());

    apply_image_data(&mut f, Vec::new()).unwrap();
    assert!(f.image_data.is_none());

    apply_image_data(&mut f, vec![1u8, 2, 3]).unwrap();
    assert_eq!(f.image_data.as_deref(), Some(&[1u8, 2, 3][..]));
}

#[test]
fn streamed_image_chunks_fail_the_moment_the_ceiling_is_crossed() {
    let mut buf: Vec<u8> = Vec::new();
    accept_image_chunk(&mut buf, &[1u8, 2, 3]).unwrap();
    assert_eq!(buf, vec![1u8, 2, 3]);

    let almost = vec![0u8; MAX_FILE_SIZE - 3];
    accept_image_chunk(&mut buf, &almost).unwrap();
    assert_eq!(buf.len(), MAX_FILE_SIZE);
    accept_image_chunk(&mut buf, &[]).unwrap();

    let e = accept_image_chunk(&mut buf, &[7u8]).unwrap_err();
    assert!(matches!(e, CreatePostError::FileTooLarge));
    assert_eq!(e.status_code(), 400);
    assert_eq!(buf.len(), MAX_FILE_SIZE);
}

#[test]
fn extractor_errors_match_the_taxonomy() {
    assert!(matches!(multipart_frame_error(), CreatePostError::InternalError));
    assert_eq!(multipart_frame_error().status_code(), 500);
    let e = missing_field_name_error();
    assert_eq!(e.status_code(), 400);
    assert!(e.message().contains("Missing field name"));
    let e = field_read_error(FieldKind::Text, "bad utf-8".to_string());
    assert!(e.message().contains("Invalid text field: bad utf-8"));
    let e = field_read_error(FieldKind::Image, "broken pipe".to_string());
    assert!(e.message().contains("Failed to read image data: broken pipe"));
}

fn base_fields(text: &str, username: &str) -> RawFields {
    let mut f = RawFields::new();
    apply_text(&mut f, text.to_string()).unwrap();
    apply_username(&mut f, username.to_string()).unwrap();
    f
}

#[test]
fn validation_aggregates_every_violation_at_once() {
    let mut f = base_fields("Short", "a!");
    apply_avatar_url(&mut f, "not a url at all".to_string());
    let e = validate_submission(f).unwrap_err();
    let msg = e.message();
    assert!(msg.starts_with("Invalid input: "));
    assert!(msg.contains("Text must be between 10 and 10,000 characters"));
    assert!(msg.contains("Username contains invalid characters"));
    assert!(msg.contains("Avatar URL must be a valid URL"));
    assert!(msg.contains("Avatar URL must point to a PNG image"));
    assert!(!msg.contains("Username must be between 2 and 50 characters"));
}

#[test]
fn short_username_fails_both_length_and_pattern() {
    let e = validate_submission(base_fields("This is a sample post text.", "a")).unwrap_err();
    let msg = e.message();
    assert!(msg.contains("Username must be between 2 and 50 characters"));
    assert!(msg.contains("Username contains invalid characters"));
    assert_eq!(
        msg,
        "Invalid input: Username must be between 2 and 50 characters\nUsername contains invalid characters"
    );
}

#[test]
fn valid_submission_passes_through_unchanged() {
    let mut f = base_fields("This is a sample post text.", "valid_user");
    apply_avatar_url(&mut f, "http://example.com/me.png".to_string());
    apply_image_data(&mut f, vec![9u8, 9, 9]).unwrap();
    let v = validate_submission(f).unwrap();
    assert_eq!(v.text, "This is a sample post text.");
    assert_eq!(v.username, "valid_user");
    assert_eq!(v.user_avatar_url.as_deref(), Some("http://example.com/me.png"));
    assert_eq!(v.image_data.as_deref(), Some(&[9u8, 9, 9][..]));
}

#[test]
fn username_bounds_are_inclusive() {
    assert!(validate_submission(base_fields("This is a sample post text.", "ab")).is_ok());
    let fifty = "a".repeat(50);
    assert!(validate_submission(base_fields("This is a sample post text.", &fifty)).is_ok());
    let fifty_one = "a".repeat(51);
    assert!(validate_submission(base_fields("This is a sample post text.", &fifty_one)).is_err());
}

#[test]
fn text_bounds_are_inclusive() {
    assert!(validate_submission(base_fields("0123456789", "valid_user")).is_ok());
    let longest = "a".repeat(10000);
    assert!(validate_submission(base_fields(&longest, "valid_user")).is_ok());
    let too_long = "a".repeat(10001);
    let e = validate_submission(base_fields(&too_long, "valid_user")).unwrap_err();
    assert!(e.message().contains("Text must be between 10 and 10,000 characters"));
}

#[test]
fn avatar_url_must_be_well_formed_and_png() {
    let mut f = base_fields("This is a sample post text.", "valid_user");
    apply_avatar_url(&mut f, "http://example.com/a.jpg".to_string());
    let e = validate_submission(f).unwrap_err();
    let msg = e.message();
    assert!(!msg.contains("Avatar URL must be a valid URL"));
    assert!(msg.contains("Avatar URL must point to a PNG image"));

    let mut f = base_fields("This is a sample post text.", "valid_user");
    apply_avatar_url(&mut f, "ftp://example.com/a.png".to_string());
    assert!(validate_submission(f).is_ok());
}

#[test]
fn every_error_variant_maps_to_its_status_and_message() {
    let cases: Vec<(CreatePostError, u16, String)> = vec![
        (
            CreatePostError::InvalidFileType,
            400,
            "Invalid file type. Supported types is only PNG".to_string(),
        ),
        (
            CreatePostError::FileTooLarge,
            400,
            "File too large. Maximum size is 5MB".to_string(),
        ),
        (
            CreatePostError::DatabaseError("down".to_string()),
            500,
            "Database error: down".to_string(),
        ),
        (
            CreatePostError::IoError("disk full".to_string()),
            500,
            "IO error: disk full".to_string(),
        ),
        (
            CreatePostError::AvatarDownloadError("HTTP 404".to_string()),
            400,
            "Failed to download avatar: HTTP 404".to_string(),
        ),
        (
            CreatePostError::ValidationError("bad".to_string()),
            400,
            "Invalid input: bad".to_string(),
        ),
        (
            CreatePostError::ImageError("unknown format".to_string()),
            400,
            "Image processing error: unknown format".to_string(),
        ),
        (CreatePostError::InternalError, 500, "Internal server error".to_string()),
    ];
    for (error, status, message) in cases {
        assert_eq!(error.status_code(), status);
        assert_eq!(error.message(), message);
        let resp = error.error_response();
        assert_eq!(resp.status_code, status);
        assert_eq!(resp.message, message);
    }
}
