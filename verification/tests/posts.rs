//! End-to-end scenarios against the submission pipeline's state machine,
//! driving it with the same inputs the HTTP tests of the service use.

use jetbrains_web_app::extract::{apply_avatar_url, apply_image_data, apply_text, apply_username, image_part_disposition, RawFields};
use jetbrains_web_app::errors::CreatePostError;
use jetbrains_web_app::pipeline::{Action, Attempt, AvatarReply, Event};

fn png_bytes() -> Vec<u8> {
    let img = image::DynamicImage::ImageRgb8(image::RgbImage::new(2, 2));
    let mut buf = std::io::Cursor::new(Vec::new());
    img.write_to(&mut buf, image::ImageFormat::Png)
        .expect("Failed to encode test image.");
    buf.into_inner()
}

fn jpeg_bytes() -> Vec<u8> {
    let img = image::DynamicImage::ImageRgb8(image::RgbImage::new(2, 2));
    let mut buf = std::io::Cursor::new(Vec::new());
    img.write_to(&mut buf, image::ImageFormat::Jpeg)
        .expect("Failed to encode test image.");
    buf.into_inner()
}

fn sample_fields(with_avatar: bool, image: Option<Vec<u8>>) -> RawFields {
    let mut f = RawFields::new();
    apply_text(&mut f, "This is a sample post text.".to_string()).unwrap();
    apply_username(&mut f, "valid_user".to_string()).unwrap();
    if with_avatar {
        apply_avatar_url(&mut f, "http://127.0.0.1:8080/jetbrains-logo.png".to_string());
    }
    if let Some(data) = image {
        apply_image_data(&mut f, data).unwrap();
    }
    f
}

fn fail_of(action: Action) -> (CreatePostError, Vec<String>) {
    match action {
        Action::Fail { error, delete } => (error, delete),
        other => panic!("expected a failure action, got {:?}", action_name(&other)),
    }
}

fn action_name(action: &Action) -> &'static str {
    match action {
        Action::StoreImage { .. } => "StoreImage",
        Action::FetchAvatar { .. } => "FetchAvatar",
        Action::StoreAvatar { .. } => "StoreAvatar",
        Action::BeginTransaction => "BeginTransaction",
        Action::InsertPost { .. } => "InsertPost",
        Action::Commit => "Commit",
        Action::Redirect { .. } => "Redirect",
        Action::Fail { .. } => "Fail",
    }
}

#[test]
fn create_post_success_redirects_home_and_exists_in_database() {
    let attempt = Attempt::new("uploads".to_string());
    let fields = sample_fields(true, Some(png_bytes()));

    let (attempt, action) = attempt.next(Event::Fields(Ok(fields)));
    let image_path = match action {
        Action::StoreImage { bytes, path } => {
            assert!(!bytes.is_empty());
            path
        }
        other => panic!("expected StoreImage, got {}", action_name(&other)),
    };
    assert!(image_path.starts_with("uploads/"));
    assert!(image_path.ends_with(".png"));

    let (attempt, action) = attempt.next(Event::ImageWritten(Ok(())));
    match action {
        Action::FetchAvatar { url } => {
            assert_eq!(url, "http://127.0.0.1:8080/jetbrains-logo.png");
        }
        other => panic!("expected FetchAvatar, got {}", action_name(&other)),
    }

    let reply = AvatarReply {
        status: 200,
        content_type: Some("image/png".to_string()),
        body: png_bytes(),
    };
    let (attempt, action) = attempt.next(Event::AvatarResponse(Ok(reply)));
    let avatar_path = match action {
        Action::StoreAvatar { bytes, path } => {
            assert!(!bytes.is_empty());
            path
        }
        other => panic!("expected StoreAvatar, got {}", action_name(&other)),
    };
    assert!(avatar_path.starts_with("uploads/avatar_"));
    assert!(avatar_path.ends_with(".png"));
    assert_ne!(image_path, avatar_path);

    let (attempt, action) = attempt.next(Event::AvatarWritten(Ok(())));
    assert!(matches!(action, Action::BeginTransaction));

    let (attempt, action) = attempt.next(Event::Began(Ok(())));
    match action {
        Action::InsertPost { id, text, username, image_name, avatar_name } => {
            assert_eq!(id.len(), 36);
            assert_eq!(text, "This is a sample post text.");
            assert_eq!(username, "valid_user");
            let image_name = image_name.expect("Post must reference the stored image.");
            let avatar_name = avatar_name.expect("Post must reference the stored avatar.");
            assert_eq!(format!("uploads/{}", image_name), image_path);
            assert_eq!(format!("uploads/{}", avatar_name), avatar_path);
        }
        other => panic!("expected InsertPost, got {}", action_name(&other)),
    }

    let (attempt, action) = attempt.next(Event::Inserted(Ok(())));
    assert!(matches!(action, Action::Commit));

    let (_attempt, action) = attempt.next(Event::CommitFinished(Ok(())));
    match action {
        Action::Redirect { location } => assert_eq!(location, "/home"),
        other => panic!("expected Redirect, got {}", action_name(&other)),
    }
}

#[test]
fn create_post_missing_text_returns_400() {
    let attempt = Attempt::new("uploads".to_string());
    let mut fields = RawFields::new();
    apply_username(&mut fields, "valid_user".to_string()).unwrap();

    let (_attempt, action) = attempt.next(Event::Fields(Ok(fields)));
    let (error, delete) = fail_of(action);
    assert_eq!(error.status_code(), 400);
    assert!(error.message().contains("Text is required"));
    assert!(delete.is_empty());
}

#[test]
fn create_post_invalid_username_length_returns_400() {
    let attempt = Attempt::new("uploads".to_string());
    let mut fields = RawFields::new();
    apply_text(&mut fields, "This is a sample post text.".to_string()).unwrap();
    apply_username(&mut fields, "a".to_string()).unwrap();

    let (_attempt, action) = attempt.next(Event::Fields(Ok(fields)));
    let (error, delete) = fail_of(action);
    assert_eq!(error.status_code(), 400);
    assert!(error
        .message()
        .contains("Username must be between 2 and 50 characters"));
    assert!(delete.is_empty());
}

#[test]
fn create_post_invalid_text_length_returns_400() {
    let attempt = Attempt::new("uploads".to_string());
    let mut fields = RawFields::new();
    apply_text(&mut fields, "Short".to_string()).unwrap();
    apply_username(&mut fields, "valid_user".to_string()).unwrap();

    let (_attempt, action) = attempt.next(Event::Fields(Ok(fields)));
    let (error, delete) = fail_of(action);
    assert_eq!(error.status_code(), 400);
    assert!(error
        .message()
        .contains("Text must be between 10 and 10,000 characters"));
    assert!(delete.is_empty());
}

#[test]
fn create_post_invalid_image_type_returns_400() {
    let file_name = "jetbrains-logo-wrong-format.jpg".to_string();
    let content_type = "image/jpeg".to_string();
    let disposition = image_part_disposition(Some(&file_name), Some(&content_type));
    let error = disposition.unwrap_err();
    assert!(matches!(error, CreatePostError::InvalidFileType));
    assert_eq!(error.status_code(), 400);

    let attempt = Attempt::new("uploads".to_string());
    let (_attempt, action) = attempt.next(Event::Fields(Err(error)));
    let (error, delete) = fail_of(action);
    assert_eq!(error.status_code(), 400);
    assert!(delete.is_empty());
}

#[test]
fn create_post_invalid_avatar_type_returns_400() {
    let attempt = Attempt::new("uploads".to_string());
    let fields = sample_fields(true, Some(png_bytes()));

    let (attempt, action) = attempt.next(Event::Fields(Ok(fields)));
    let image_path = match action {
        Action::StoreImage { path, .. } => path,
        other => panic!("expected StoreImage, got {}", action_name(&other)),
    };
    let (attempt, action) = attempt.next(Event::ImageWritten(Ok(())));
    assert!(matches!(action, Action::FetchAvatar { .. }));

    let reply = AvatarReply {
        status: 200,
        content_type: Some("image/jpeg".to_string()),
        body: jpeg_bytes(),
    };
    let (_attempt, action) = attempt.next(Event::AvatarResponse(Ok(reply)));
    let (error, delete) = fail_of(action);
    assert_eq!(error.status_code(), 400);
    assert!(error.message().contains("Invalid avatar image type"));
    assert_eq!(delete, vec![image_path]);
}

#[test]
fn insert_failure_surrenders_written_image_for_deletion() {
    let attempt = Attempt::new("uploads".to_string());
    let fields = sample_fields(false, Some(png_bytes()));

    let (attempt, action) = attempt.next(Event::Fields(Ok(fields)));
    let image_path = match action {
        Action::StoreImage { path, .. } => path,
        other => panic!("expected StoreImage, got {}", action_name(&other)),
    };
    let (attempt, action) = attempt.next(Event::ImageWritten(Ok(())));
    assert!(matches!(action, Action::BeginTransaction));
    let (attempt, action) = attempt.next(Event::Began(Ok(())));
    assert!(matches!(action, Action::InsertPost { .. }));

    let (_attempt, action) = attempt.next(Event::Inserted(Err("duplicate key".to_string())));
    let (error, delete) = fail_of(action);
    assert_eq!(error.status_code(), 500);
    assert!(error.message().contains("Database error: duplicate key"));
    assert_eq!(delete, vec![image_path]);
}

#[test]
fn commit_failure_still_deletes_written_assets() {
    let attempt = Attempt::new("uploads".to_string());
    let fields = sample_fields(false, Some(png_bytes()));

    let (attempt, _action) = attempt.next(Event::Fields(Ok(fields)));
    let (attempt, _action) = attempt.next(Event::ImageWritten(Ok(())));
    let (attempt, _action) = attempt.next(Event::Began(Ok(())));
    let (attempt, _action) = attempt.next(Event::Inserted(Ok(())));
    let (_attempt, action) = attempt.next(Event::CommitFinished(Err("connection lost".to_string())));
    let (error, delete) = fail_of(action);
    assert_eq!(error.status_code(), 500);
    assert_eq!(delete.len(), 1);
}

#[test]
fn undecodable_upload_aborts_without_any_store_order() {
    let attempt = Attempt::new("uploads".to_string());
    let fields = sample_fields(false, Some(vec![0u8, 1, 2, 3, 4, 5, 6, 7]));

    let (_attempt, action) = attempt.next(Event::Fields(Ok(fields)));
    let (error, delete) = fail_of(action);
    assert!(matches!(error, CreatePostError::ImageError(_)));
    assert_eq!(error.status_code(), 400);
    assert!(delete.is_empty());
}

#[test]
fn undecodable_avatar_body_aborts_with_client_error() {
    let attempt = Attempt::new("uploads".to_string());
    let fields = sample_fields(true, None);

    let (attempt, action) = attempt.next(Event::Fields(Ok(fields)));
    assert!(matches!(action, Action::FetchAvatar { .. }));
    let reply = AvatarReply {
        status: 200,
        content_type: Some("image/png".to_string()),
        body: vec![5u8, 4, 3, 2, 1, 0],
    };
    let (_attempt, action) = attempt.next(Event::AvatarResponse(Ok(reply)));
    let (error, delete) = fail_of(action);
    assert!(matches!(error, CreatePostError::ImageError(_)));
    assert_eq!(error.status_code(), 400);
    assert!(delete.is_empty());
}

#[test]
fn avatar_transport_failure_aborts_with_download_error() {
    let attempt = Attempt::new("uploads".to_string());
    let fields = sample_fields(true, None);

    let (attempt, action) = attempt.next(Event::Fields(Ok(fields)));
    assert!(matches!(action, Action::FetchAvatar { .. }));
    let (_attempt, action) =
        attempt.next(Event::AvatarResponse(Err("connection refused".to_string())));
    let (error, delete) = fail_of(action);
    assert_eq!(error.status_code(), 400);
    assert!(error
        .message()
        .contains("Failed to download avatar: connection refused"));
    assert!(delete.is_empty());
}

#[test]
fn submission_without_assets_inserts_no_file_names() {
    let attempt = Attempt::new("uploads".to_string());
    let fields = sample_fields(false, None);

    let (attempt, action) = attempt.next(Event::Fields(Ok(fields)));
    assert!(matches!(action, Action::BeginTransaction));
    let (attempt, action) = attempt.next(Event::Began(Ok(())));
    match action {
        Action::InsertPost { image_name, avatar_name, .. } => {
            assert!(image_name.is_none());
            assert!(avatar_name.is_none());
        }
        other => panic!("expected InsertPost, got {}", action_name(&other)),
    }
    let (attempt, action) = attempt.next(Event::Inserted(Ok(())));
    assert!(matches!(action, Action::Commit));
    let (_attempt, action) = attempt.next(Event::CommitFinished(Ok(())));
    assert!(matches!(action, Action::Redirect { .. }));
}
