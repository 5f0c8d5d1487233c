//! Job state, inferred from the job file alone.
//!
//! A generation job is tracked through a single file under the jobs root:
//! no file means the job is unknown or has failed (the two are deliberately
//! conflated), a file below 20 bytes is an in-progress marker whose text is
//! the progress report, and a file of 20 bytes or more is the finished
//! artifact, served back base64-encoded.

use vstd::prelude::*;

use crate::encoding::{base64_of, bytes_to_string, encode_base64};
use vstd::utf8::{decode_utf8, encode_utf8, valid_utf8};

verus! {

/// The observable state of a job.
#[derive(Clone, Copy, Debug, PartialEq, Eq, Structural)]
#[allow(non_camel_case_types)]
pub enum JobStatus {
    STARTED,
    FAILED,
    COMPLETED,
    UNKNOWN,
}

/// The job-status reply served to clients.
#[derive(Debug)]
pub struct JobData {
    pub endpoint: String,
    pub job_id: String,
    pub status: JobStatus,
    pub image: Option<String>,
}

/// A job-status request.
#[derive(Debug)]
pub struct JobQuery {
    pub job_id: String,
}

/// The size, in bytes, from which a job file counts as a finished artifact
/// rather than a progress marker.
pub const ARTIFACT_SIZE_FLOOR: usize = 20;

/// The contents of a job file, `None` when the file is absent.
pub open spec fn content_view(content: Option<&Vec<u8>>) -> Option<Seq<u8>> {
    match content {
        Some(v) => Some(v@),
        None => None,
    }
}

/// The status inferred from a job file: absent is the conflated
/// failed/unknown state, short readable text is in progress, and anything
/// of 20 bytes or more is a finished artifact.
pub open spec fn job_status_spec(content: Option<Seq<u8>>) -> JobStatus {
    match content {
        None => JobStatus::FAILED,
        Some(b) => if b.len() >= ARTIFACT_SIZE_FLOOR as int {
            JobStatus::COMPLETED
        } else if valid_utf8(b) {
            JobStatus::STARTED
        } else {
            JobStatus::FAILED
        },
    }
}

/// The progress text of a job still in progress, and nothing otherwise.
pub open spec fn job_progress_spec(content: Option<Seq<u8>>) -> Option<Seq<char>> {
    match content {
        Some(b) => if b.len() < ARTIFACT_SIZE_FLOOR as int && valid_utf8(b) {
            Some(decode_utf8(b))
        } else {
            None
        },
        None => None,
    }
}

/// Builds the job-status reply for `job_id` from its job file's contents.
pub fn get_job(job_id: &str, content: Option<&Vec<u8>>) -> (r: JobData)
    ensures
        r.endpoint@ == "api/jobs"@,
        r.job_id@ == job_id@,
        r.status == job_status_spec(content_view(content)),
        match content_view(content) {
            Some(b) => if b.len() >= ARTIFACT_SIZE_FLOOR as int {
                r.image matches Some(img) && img@ == base64_of(b)
            } else {
                r.image is None
            },
            None => r.image is None,
        },
{
    let endpoint = String::from_str("api/jobs");
    let id = String::from_str(job_id);
    match content {
        None => JobData { endpoint, job_id: id, status: JobStatus::FAILED, image: None },
        Some(bytes) => {
            if bytes.len() >= ARTIFACT_SIZE_FLOOR {
                let image = encode_base64(bytes);
                JobData {
                    endpoint,
                    job_id: id,
                    status: JobStatus::COMPLETED,
                    image: Some(image),
                }
            } else {
                match bytes_to_string(bytes) {
                    Some(_) => JobData {
                        endpoint,
                        job_id: id,
                        status: JobStatus::STARTED,
                        image: None,
                    },
                    None => JobData {
                        endpoint,
                        job_id: id,
                        status: JobStatus::FAILED,
                        image: None,
                    },
                }
            }
        },
    }
}

/// The progress text of an in-progress job file, `None` for absent files,
/// finished artifacts, and unreadable text.
pub fn job_progress_text(content: Option<&Vec<u8>>) -> (r: Option<String>)
    ensures
        match r {
            Some(s) => job_progress_spec(content_view(content)) == Some(s@),
            None => job_progress_spec(content_view(content)) is None,
        },
{
    match content {
        Some(bytes) => {
            if bytes.len() < ARTIFACT_SIZE_FLOOR {
                bytes_to_string(bytes)
            } else {
                None
            }
        },
        None => None,
    }
}

/// Relies on uuid's `Uuid::new_v4` and its hyphenated rendering: a random
/// version-4 UUID printed as exactly 36 characters.  Nothing more can be
/// promised of a random identifier.
#[verifier::external_body]
fn new_job_id() -> (r: String)
    ensures
        r@.len() == 36,
{
    uuid::Uuid::new_v4().to_string()
}

/// Accepts a generation request: draws a fresh job id and answers STARTED
/// at once.  The caller schedules the background generation run under the
/// returned id.
pub fn queue_generation_of_random_image() -> (r: JobData)
    ensures
        r.endpoint@ == "api/jobs"@,
        r.status is STARTED,
        r.image is None,
        r.job_id@.len() == 36,
{
    let job_id = new_job_id();
    JobData {
        endpoint: String::from_str("api/jobs"),
        job_id,
        status: JobStatus::STARTED,
        image: None,
    }
}

/// An unknown job id and a failed (deleted) job are indistinguishable: an
/// absent job file reports the one conflated failed state, whatever the
/// reason for the absence, and carries neither progress nor image.
pub proof fn lemma_absent_jobs_conflated()
    ensures
        job_status_spec(None) == JobStatus::FAILED,
        job_progress_spec(None) is None,
{
}

/// A job file of exactly 20 bytes already counts as a finished artifact:
/// only sizes strictly below 20 are in progress.
pub proof fn lemma_artifact_size_boundary(b: Seq<u8>)
    requires
        b.len() == ARTIFACT_SIZE_FLOOR as int,
    ensures
        job_status_spec(Some(b)) == JobStatus::COMPLETED,
{
}

/// A freshly created job file holds the literal initial progress marker and
/// reports STARTED with exactly that text.
pub proof fn lemma_fresh_job_reports_progress()
    ensures
        job_status_spec(Some(encode_utf8("progress: 0%"@))) == JobStatus::STARTED,
        job_progress_spec(Some(encode_utf8("progress: 0%"@))) == Some("progress: 0%"@),
{
    reveal_strlit("progress: 0%");
    let chars = "progress: 0%"@;
    assert(vstd::utf8::is_ascii_chars(chars));
    vstd::utf8::is_ascii_chars_encode_utf8(chars);
    vstd::utf8::encode_utf8_valid_utf8(chars);
    vstd::utf8::encode_utf8_decode_utf8(chars);
}

} // verus!
