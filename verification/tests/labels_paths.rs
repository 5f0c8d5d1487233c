//! Version labels and the paths derived from them.

use webapp_rust::paths::{
    generator_input_path, get_archive_path, get_job_path, staging_path, version_label,
};

#[test]
fn labels_are_zero_padded_to_width_three() {
    assert_eq!(version_label(0), "000");
    assert_eq!(version_label(1), "001");
    assert_eq!(version_label(12), "012");
    assert_eq!(version_label(123), "123");
}

#[test]
fn labels_beyond_three_digits_are_unpadded() {
    assert_eq!(version_label(1234), "1234");
    assert_eq!(version_label(i32::MAX), "2147483647");
}

#[test]
fn archive_path_uses_the_label() {
    assert_eq!(get_archive_path(7), "/app/data/archives/007");
    assert_eq!(get_archive_path(1000), "/app/data/archives/1000");
}

#[test]
fn staging_path_uses_the_label() {
    assert_eq!(staging_path(2), "/app/data/archives/tmp/002.tar.gz");
}

#[test]
fn generator_input_is_the_entry_point() {
    assert_eq!(
        generator_input_path(2),
        "/app/data/archives/002/sphynx_program/programm"
    );
}

#[test]
fn job_path_is_flat_under_jobs_root() {
    assert_eq!(get_job_path("4ae1"), "/app/jobs/4ae1");
}
