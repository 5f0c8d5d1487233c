//! The version store: reading, committing, and the canonical record format.

use webapp_rust::errors::CoreError;
use webapp_rust::version::{
    commit_versions_json, get_archive_version, initial_versions_json, parse_versions,
    render_versions, update_latest_version, VersionsData,
};

#[test]
fn absent_record_counts_from_one() {
    assert_eq!(get_archive_version(None), Ok(1));
}

#[test]
fn initial_record_parses_to_one() {
    let json = initial_versions_json();
    assert_eq!(get_archive_version(Some(&json)), Ok(1));
}

#[test]
fn commit_then_current_round_trip() {
    let json = commit_versions_json(41);
    assert_eq!(get_archive_version(Some(&json)), Ok(41));
}

#[test]
fn update_advances_by_one() {
    let json = update_latest_version(4);
    assert_eq!(get_archive_version(Some(&json)), Ok(5));
}

#[test]
fn render_parse_exact_record() {
    let text = "{\"last_version\":42,\"last_modified\":\"2020-01-01T00:00:00+00:00\"}";
    let parsed = parse_versions(text).expect("canonical record must parse");
    assert_eq!(parsed.last_version, 42);
    assert_eq!(parsed.last_modified, "2020-01-01T00:00:00+00:00");
    let rendered = render_versions(&parsed);
    assert_eq!(rendered, text);
}

#[test]
fn render_zero_version() {
    let d = VersionsData {
        last_version: 0,
        last_modified: String::from("t"),
    };
    assert_eq!(render_versions(&d), "{\"last_version\":0,\"last_modified\":\"t\"}");
}

#[test]
fn corrupt_record_is_storage_error() {
    let garbage = String::from("not a version record");
    assert_eq!(get_archive_version(Some(&garbage)), Err(CoreError::StorageError));
}

#[test]
fn parse_rejects_leading_zero() {
    assert!(parse_versions("{\"last_version\":007,\"last_modified\":\"t\"}").is_none());
}

#[test]
fn parse_rejects_missing_digits() {
    assert!(parse_versions("{\"last_version\":,\"last_modified\":\"t\"}").is_none());
}

#[test]
fn parse_rejects_trailing_garbage() {
    assert!(parse_versions("{\"last_version\":1,\"last_modified\":\"t\"} ").is_none());
}

#[test]
fn parse_rejects_negative_version() {
    assert!(parse_versions("{\"last_version\":-1,\"last_modified\":\"t\"}").is_none());
}

#[test]
fn parse_accepts_largest_version() {
    let text = "{\"last_version\":2147483647,\"last_modified\":\"t\"}";
    let parsed = parse_versions(text).expect("i32::MAX is still a version");
    assert_eq!(parsed.last_version, i32::MAX);
}

#[test]
fn update_at_the_top_of_the_range() {
    let json = update_latest_version(i32::MAX - 1);
    assert_eq!(get_archive_version(Some(&json)), Ok(i32::MAX));
}

#[test]
fn parse_rejects_version_overflow() {
    assert!(parse_versions("{\"last_version\":2147483648,\"last_modified\":\"t\"}").is_none());
}

#[test]
fn parse_rejects_escapes_in_timestamp() {
    assert!(parse_versions("{\"last_version\":1,\"last_modified\":\"a\\b\"}").is_none());
}

#[test]
fn parse_rejects_empty_input() {
    assert!(parse_versions("").is_none());
}
