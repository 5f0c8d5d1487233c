//! Job-state classification from the job file alone.

use base64::Engine;
use webapp_rust::jobs::{
    get_job, job_progress_text, queue_generation_of_random_image, JobStatus,
};

#[test]
fn fresh_job_reports_started_with_its_marker() {
    let content: Vec<u8> = b"progress: 0%".to_vec();
    let reply = get_job("j-1", Some(&content));
    assert_eq!(reply.status, JobStatus::STARTED);
    assert_eq!(reply.endpoint, "api/jobs");
    assert_eq!(reply.job_id, "j-1");
    assert!(reply.image.is_none());
    let progress = job_progress_text(Some(&content));
    assert_eq!(progress.as_deref(), Some("progress: 0%"));
}

#[test]
fn finished_job_serves_the_artifact_base64() {
    let mut content: Vec<u8> = vec![0xFF, 0xD8, 0x00, 0x42];
    content.extend_from_slice(&[7u8; 30]);
    let reply = get_job("j-2", Some(&content));
    assert_eq!(reply.status, JobStatus::COMPLETED);
    let expected = base64::engine::general_purpose::STANDARD.encode(&content);
    assert_eq!(reply.image.as_deref(), Some(expected.as_str()));
    assert!(job_progress_text(Some(&content)).is_none());
}

#[test]
fn twenty_bytes_is_already_completed() {
    let content: Vec<u8> = vec![b'x'; 20];
    let reply = get_job("j-3", Some(&content));
    assert_eq!(reply.status, JobStatus::COMPLETED);
}

#[test]
fn nineteen_bytes_is_still_in_progress() {
    let content: Vec<u8> = vec![b'x'; 19];
    let reply = get_job("j-4", Some(&content));
    assert_eq!(reply.status, JobStatus::STARTED);
}

#[test]
fn unknown_and_deleted_jobs_are_indistinguishable() {
    let unknown = get_job("never-existed", None);
    let deleted = get_job("existed-then-failed", None);
    assert_eq!(unknown.status, JobStatus::FAILED);
    assert_eq!(deleted.status, unknown.status);
    assert!(unknown.image.is_none());
    assert!(deleted.image.is_none());
    assert!(job_progress_text(None).is_none());
}

#[test]
fn unreadable_small_job_file_counts_as_failed() {
    let content: Vec<u8> = vec![0xFF, 0xFE];
    let reply = get_job("j-5", Some(&content));
    assert_eq!(reply.status, JobStatus::FAILED);
    assert!(job_progress_text(Some(&content)).is_none());
}

#[test]
fn queueing_answers_started_with_a_fresh_id() {
    let reply = queue_generation_of_random_image();
    assert_eq!(reply.status, JobStatus::STARTED);
    assert_eq!(reply.endpoint, "api/jobs");
    assert!(reply.image.is_none());
    assert_eq!(reply.job_id.len(), 36);
    let again = queue_generation_of_random_image();
    assert_ne!(reply.job_id, again.job_id);
}
