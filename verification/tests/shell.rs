use storefront::api::errors::{
    bad_request, forbidden, internal_error, not_found, unauthorized, ApiError,
};
use storefront::api::queries::{ErrorResponse, FileUpload, ProductResponse, UploadData, UploadResponse};
use storefront::api::response::ApiResponse;
use storefront::config::AppConfig;
use storefront::storage::sanitize_filename;
use storefront::user::entity::Role;
use storefront::{Error, ErrorCode};

#[test]
fn error_codes_carry_default_messages() {
    assert_eq!(Error::new(ErrorCode::InternalError).message, "Internal server error");
    assert_eq!(Error::new(ErrorCode::ValidationError).message, "Validation error");
    assert_eq!(Error::new(ErrorCode::DatabaseError).message, "Database error");
    assert_eq!(Error::new(ErrorCode::ResourceAlreadyExists).message, "Resource already exists");
    assert_eq!(Error::new(ErrorCode::ResourceNotFound).message, "Resource not found");
    assert_eq!(Error::new(ErrorCode::InvalidCredentials).message, "Invalid credentials");
}

#[test]
fn with_message_keeps_code_and_text() {
    let e = Error::with_message(ErrorCode::ValidationError, "Quantity must be greater than 0".to_string());
    assert_eq!(e.code, ErrorCode::ValidationError);
    assert_eq!(e.message, "Quantity must be greater than 0");
}

#[test]
fn api_error_constructors_pick_the_right_variant() {
    assert!(matches!(not_found("x".to_string()), ApiError::NotFound(m) if m == "x"));
    assert!(matches!(bad_request("x".to_string()), ApiError::BadRequest(m) if m == "x"));
    assert!(matches!(internal_error("x".to_string()), ApiError::InternalServerError(m) if m == "x"));
    assert!(matches!(unauthorized("x".to_string()), ApiError::Unauthorized(m) if m == "x"));
    assert!(matches!(forbidden("x".to_string()), ApiError::Forbidden(m) if m == "x"));
}

#[test]
fn response_envelopes_wrap_their_payload() {
    let ok = ApiResponse::ok(7u32);
    assert!(ok.success);
    assert_eq!(ok.data, 7);
    let err = storefront::api::response::ApiError::new("boom".to_string());
    assert!(!err.success);
    assert_eq!(err.error, "boom");
    let pr = ProductResponse::new("payload");
    assert!(pr.success);
    assert_eq!(pr.data, "payload");
    let er = ErrorResponse::new("bad".to_string());
    assert!(!er.success);
    assert_eq!(er.error, "bad");
    let up = UploadResponse::new(UploadData {
        uploads: vec![FileUpload { url: "u".to_string(), object_name: "o".to_string() }],
    });
    assert!(up.success);
    assert_eq!(up.data.uploads.len(), 1);
    assert_eq!(up.data.uploads[0].url, "u");
}

#[test]
fn role_codes_round_trip() {
    assert_eq!(Role::Admin.code(), "ADMIN");
    assert_eq!(Role::User.code(), "USER");
    assert_eq!(Role::Admin.name(), "Admin");
    assert_eq!(Role::User.name(), "User");
    assert_eq!(Role::from_code("ADMIN"), Role::Admin);
    assert_eq!(Role::from_code("USER"), Role::User);
    assert_eq!(Role::from_code("anything-else"), Role::User);
}

#[test]
fn sanitize_filename_keeps_the_stem_and_masks_odd_characters() {
    assert_eq!(sanitize_filename("photo.jpg"), "photo");
    assert_eq!(sanitize_filename("photo album.jpg"), "photo_album");
    assert_eq!(sanitize_filename("archive.tar.gz"), "archive_tar");
    assert_eq!(sanitize_filename("dir/file.txt"), "file");
    assert_eq!(sanitize_filename("no_ext"), "no_ext");
    assert_eq!(sanitize_filename(".hidden"), "_hidden");
    assert_eq!(sanitize_filename("weird!name?.png"), "weird_name_");
    assert_eq!(sanitize_filename("Ünïcode-ok.png"), "Ünïcode-ok");
}

#[test]
fn app_config_is_plain_data() {
    let c = AppConfig {
        server_addr: "0.0.0.0:8080".to_string(),
        database_url: "postgres://localhost/shop".to_string(),
        gcs_bucket_name: "bucket".to_string(),
    };
    assert_eq!(c.server_addr, "0.0.0.0:8080");
    assert_eq!(c.database_url, "postgres://localhost/shop");
    assert_eq!(c.gcs_bucket_name, "bucket");
}
