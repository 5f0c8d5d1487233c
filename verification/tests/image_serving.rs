//! Base64 image serving, the soft-fail preview, and the navigation bar.

use base64::Engine;
use webapp_rust::errors::CoreError;
use webapp_rust::images::{
    decode_image_path, get_base64_for_path, image_preview, ImageQuery,
};
use webapp_rust::pages::get_pages_lists_for_current_page;

#[test]
fn file_bytes_are_served_base64_encoded() {
    let bytes: Vec<u8> = vec![0x00, 0xFF, 0x10, 0x20, 0x30];
    let expected = base64::engine::general_purpose::STANDARD.encode(&bytes);
    assert_eq!(get_base64_for_path(Some(&bytes)), Ok(expected));
}

#[test]
fn unreadable_file_is_an_io_error() {
    assert_eq!(get_base64_for_path(None), Err(CoreError::IoError));
}

#[test]
fn preview_encodes_the_bytes() {
    let bytes: Vec<u8> = b"fake image bytes".to_vec();
    let expected = base64::engine::general_purpose::STANDARD.encode(&bytes);
    assert_eq!(image_preview(Some(&bytes)).b64, expected);
}

#[test]
fn preview_soft_fails_to_an_empty_string() {
    assert_eq!(image_preview(None).b64, "");
}

#[test]
fn image_path_round_trips_through_base64() {
    let path = "/data/images/cat.png";
    let encoded = base64::engine::general_purpose::STANDARD.encode(path.as_bytes());
    let query = ImageQuery { path: encoded };
    assert_eq!(decode_image_path(&query).as_deref(), Some(path));
}

#[test]
fn malformed_base64_path_is_refused() {
    let query = ImageQuery { path: String::from("!!!not-base64!!!") };
    assert!(decode_image_path(&query).is_none());
}

#[test]
fn non_utf8_decoded_path_is_refused() {
    let encoded = base64::engine::general_purpose::STANDARD.encode([0xFFu8, 0xFE]);
    let query = ImageQuery { path: encoded };
    assert!(decode_image_path(&query).is_none());
}

#[test]
fn navigation_marks_the_active_page() {
    let pages = get_pages_lists_for_current_page("Inventory");
    assert_eq!(pages.len(), 3);
    assert_eq!(pages[0].name, "Upload");
    assert_eq!(pages[0].url, "/app/upload");
    assert!(!pages[0].active);
    assert_eq!(pages[1].name, "Inventory");
    assert_eq!(pages[1].url, "/app/inventory");
    assert!(pages[1].active);
    assert_eq!(pages[2].name, "Random");
    assert_eq!(pages[2].url, "/app/random");
    assert!(!pages[2].active);
}

#[test]
fn navigation_with_unknown_page_marks_nothing() {
    let pages = get_pages_lists_for_current_page("Elsewhere");
    assert!(pages.iter().all(|p| !p.active));
}

#[test]
fn errors_describe_themselves() {
    assert_eq!(
        CoreError::StorageError.describe(),
        "version record unreadable or unwritable"
    );
    assert_eq!(CoreError::IoError.describe(), "filesystem operation failed");
    assert_eq!(CoreError::ExtractionError.describe(), "archive could not be unpacked");
    assert_eq!(CoreError::GenerationError.describe(), "image generation failed");
}
