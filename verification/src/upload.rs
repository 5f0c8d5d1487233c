//! The upload pipeline, as a decision state machine.
//!
//! An accepted upload runs through a fixed sequence in the background:
//! read the current version, stage the bytes under the next version's
//! label, extract the archive into its versioned directory, run the
//! sanitizer (whose exit code is noted but not enforced), commit the new
//! version, and clean up the staging directory.  The machine here makes
//! every decision of that sequence; the surrounding application only
//! performs the filesystem work and reports how it went.
//!
//! Failure policy: a staging failure aborts before extraction and nothing
//! is committed; an extraction failure aborts without commit (the staged
//! file may remain); a commit failure leaves the extracted directory on
//! disk but the counter unchanged; a cleanup failure is ignored.

use vstd::prelude::*;

use crate::errors::CoreError;
use crate::paths::{
    archive_path_spec, get_archive_path, staging_path, staging_path_spec,
};
use crate::text::{contains_sub, str_contains, str_eq};

verus! {

/// Where an upload run stands.  From staging on, the state carries the
/// version the run will commit — one past the version that was read.
#[derive(Clone, Copy, Debug, PartialEq, Eq, Structural)]
pub enum UploadState {
    /// Nothing has happened yet.
    Start,
    /// The current version is being read.
    ReadingVersion,
    /// The uploaded bytes are being written to the staging file.
    Staging { new_version: i32 },
    /// The staged archive is being unpacked into the versioned directory.
    Extracting { new_version: i32 },
    /// The sanitizer is running over the extracted tree.
    Sanitizing { new_version: i32 },
    /// The new version record is being written.
    Committing { new_version: i32 },
    /// The staging directory is being removed.
    CleaningUp { new_version: i32, committed: bool },
    /// The upload finished and `new_version` is committed.
    Done { new_version: i32 },
    /// The run aborted; nothing was committed.
    Failed { error: CoreError },
}

/// The outcome of the last outside action, fed back into the machine.
#[derive(Clone, Copy, Debug, PartialEq, Eq, Structural)]
pub enum UploadEvent {
    Begin,
    VersionLoaded { version: Option<i32> },
    Staged { ok: bool },
    Extracted { ok: bool },
    SanitizerExited { ok: bool },
    Committed { ok: bool },
    Cleaned { ok: bool },
}

/// The outside work the application must perform next.
#[derive(Debug)]
pub enum UploadAction {
    /// Read the version record and report the current version.
    LoadVersion,
    /// Create the staging directory and write the uploaded bytes to `path`.
    WriteStagedArchive { path: String },
    /// Unpack the gzip-compressed tar at `archive` into `dest`.
    ExtractTo { archive: String, dest: String },
    /// Run the sanitizer process on `path`; its exit code is reported but
    /// does not abort the pipeline.
    RunSanitizer { path: String },
    /// Write the version record for `new_version`.
    CommitVersion { new_version: i32 },
    /// Remove the staging directory at `path`.
    RemoveStagingDir { path: String },
    /// The run is over; nothing is left to do.
    Stop,
}

/// The next state of the upload machine.  Any event that does not belong
/// to the state leaves the state unchanged.
pub open spec fn upload_next_state(s: UploadState, e: UploadEvent) -> UploadState {
    match (s, e) {
        (UploadState::Start, UploadEvent::Begin) => UploadState::ReadingVersion,
        (UploadState::ReadingVersion, UploadEvent::VersionLoaded { version }) => match version {
            Some(v) => if 0 <= v < i32::MAX {
                UploadState::Staging { new_version: (v + 1) as i32 }
            } else {
                UploadState::Failed { error: CoreError::StorageError }
            },
            None => UploadState::Failed { error: CoreError::StorageError },
        },
        (UploadState::Staging { new_version }, UploadEvent::Staged { ok }) => if new_version < 1 {
            UploadState::Failed { error: CoreError::StorageError }
        } else if ok {
            UploadState::Extracting { new_version }
        } else {
            UploadState::Failed { error: CoreError::IoError }
        },
        (UploadState::Extracting { new_version }, UploadEvent::Extracted { ok }) => if new_version
            < 1 {
            UploadState::Failed { error: CoreError::StorageError }
        } else if ok {
            UploadState::Sanitizing { new_version }
        } else {
            UploadState::Failed { error: CoreError::ExtractionError }
        },
        (UploadState::Sanitizing { new_version }, UploadEvent::SanitizerExited { .. }) => {
            if new_version < 1 {
                UploadState::Failed { error: CoreError::StorageError }
            } else {
                UploadState::Committing { new_version }
            }
        },
        (UploadState::Committing { new_version }, UploadEvent::Committed { ok }) => {
            UploadState::CleaningUp { new_version, committed: ok }
        },
        (UploadState::CleaningUp { new_version, committed }, UploadEvent::Cleaned { .. }) => {
            if committed {
                UploadState::Done { new_version }
            } else {
                UploadState::Failed { error: CoreError::StorageError }
            }
        },
        (s1, _) => s1,
    }
}

/// The action the machine asks for on each transition.
pub open spec fn upload_action_ok(s: UploadState, e: UploadEvent, a: UploadAction) -> bool {
    match (s, e) {
        (UploadState::Start, UploadEvent::Begin) => a is LoadVersion,
        (UploadState::ReadingVersion, UploadEvent::VersionLoaded { version }) => match version {
            Some(v) => if 0 <= v < i32::MAX {
                a matches UploadAction::WriteStagedArchive { path } && path@ == staging_path_spec(
                    v + 1,
                )
            } else {
                a is Stop
            },
            None => a is Stop,
        },
        (UploadState::Staging { new_version }, UploadEvent::Staged { ok }) => if ok && new_version
            >= 1 {
            &&& a matches UploadAction::ExtractTo { archive, dest }
            &&& archive@ == staging_path_spec(new_version as int)
            &&& dest@ == archive_path_spec(new_version as int)
        } else {
            a is Stop
        },
        (UploadState::Extracting { new_version }, UploadEvent::Extracted { ok }) => if ok
            && new_version >= 1 {
            a matches UploadAction::RunSanitizer { path } && path@ == archive_path_spec(
                new_version as int,
            )
        } else {
            a is Stop
        },
        (UploadState::Sanitizing { new_version }, UploadEvent::SanitizerExited { .. }) => {
            if new_version < 1 {
                a is Stop
            } else {
                a matches UploadAction::CommitVersion { new_version: nv } && nv == new_version
            }
        },
        (UploadState::Committing { .. }, UploadEvent::Committed { .. }) => {
            a matches UploadAction::RemoveStagingDir { path } && path@
                == "/app/data/archives/tmp"@
        },
        (UploadState::CleaningUp { .. }, UploadEvent::Cleaned { .. }) => a is Stop,
        (_, _) => a is Stop,
    }
}

/// Steps the upload machine: hands back the next state and the outside
/// action the application must perform.
pub fn upload_step(state: UploadState, event: UploadEvent) -> (r: (UploadState, UploadAction))
    ensures
        r.0 == upload_next_state(state, event),
        upload_action_ok(state, event, r.1),
{
    match (state, event) {
        (UploadState::Start, UploadEvent::Begin) => (
            UploadState::ReadingVersion,
            UploadAction::LoadVersion,
        ),
        (UploadState::ReadingVersion, UploadEvent::VersionLoaded { version }) => match version {
            Some(v) => {
                if 0 <= v && v < i32::MAX {
                    let new_version = v + 1;
                    (
                        UploadState::Staging { new_version },
                        UploadAction::WriteStagedArchive { path: staging_path(new_version) },
                    )
                } else {
                    (UploadState::Failed { error: CoreError::StorageError }, UploadAction::Stop)
                }
            },
            None => (UploadState::Failed { error: CoreError::StorageError }, UploadAction::Stop),
        },
        (UploadState::Staging { new_version }, UploadEvent::Staged { ok }) => {
            if new_version < 1 {
                (UploadState::Failed { error: CoreError::StorageError }, UploadAction::Stop)
            } else if ok {
                (
                    UploadState::Extracting { new_version },
                    UploadAction::ExtractTo {
                        archive: staging_path(new_version),
                        dest: get_archive_path(new_version),
                    },
                )
            } else {
                (UploadState::Failed { error: CoreError::IoError }, UploadAction::Stop)
            }
        },
        (UploadState::Extracting { new_version }, UploadEvent::Extracted { ok }) => {
            if new_version < 1 {
                (UploadState::Failed { error: CoreError::StorageError }, UploadAction::Stop)
            } else if ok {
                (
                    UploadState::Sanitizing { new_version },
                    UploadAction::RunSanitizer { path: get_archive_path(new_version) },
                )
            } else {
                (UploadState::Failed { error: CoreError::ExtractionError }, UploadAction::Stop)
            }
        },
        (UploadState::Sanitizing { new_version }, UploadEvent::SanitizerExited { ok: _ }) => {
            if new_version < 1 {
                (UploadState::Failed { error: CoreError::StorageError }, UploadAction::Stop)
            } else {
                (
                    UploadState::Committing { new_version },
                    UploadAction::CommitVersion { new_version },
                )
            }
        },
        (UploadState::Committing { new_version }, UploadEvent::Committed { ok }) => (
            UploadState::CleaningUp { new_version, committed: ok },
            UploadAction::RemoveStagingDir { path: String::from_str("/app/data/archives/tmp") },
        ),
        (UploadState::CleaningUp { new_version, committed }, UploadEvent::Cleaned { ok: _ }) => {
            if committed {
                (UploadState::Done { new_version }, UploadAction::Stop)
            } else {
                (UploadState::Failed { error: CoreError::StorageError }, UploadAction::Stop)
            }
        },
        (s1, _) => (s1, UploadAction::Stop),
    }
}

/// How one part of the multipart upload body is handled.
#[derive(Clone, Copy, Debug, PartialEq, Eq, Structural)]
pub enum FieldAction {
    /// The part has no field name: the whole request is rejected.
    Reject,
    /// The part is the `content-type` metadata: consumed, not stored.
    Metadata,
    /// The field name does not look like a gzipped tar archive: skipped.
    Skip,
    /// The part is an archive: its bytes enter the upload pipeline.
    Store,
}

/// Decides how to handle one multipart field, by its name alone.
pub fn classify_upload_field(name: Option<&str>) -> (r: FieldAction)
    ensures
        match name {
            None => r is Reject,
            Some(n) => if n@ == "content-type"@ {
                r is Metadata
            } else if !contains_sub(n@, ".tar.gz"@) {
                r is Skip
            } else {
                r is Store
            },
        },
{
    match name {
        None => FieldAction::Reject,
        Some(n) => {
            if str_eq(n, "content-type") {
                FieldAction::Metadata
            } else if !str_contains(n, ".tar.gz") {
                FieldAction::Skip
            } else {
                FieldAction::Store
            }
        },
    }
}

/// One successful upload advances the version by exactly one: a run that
/// reads current version `v` and sees every step succeed stages, extracts
/// and sanitizes under the zero-padded label of `v + 1` — the archive
/// directory is named by the new version — and finishes committed at
/// exactly `v + 1`.
pub proof fn lemma_upload_success_increments(v: i32)
    requires
        0 <= v < i32::MAX,
    ensures
        ({
            let s1 = upload_next_state(
                UploadState::ReadingVersion,
                UploadEvent::VersionLoaded { version: Some(v) },
            );
            let s2 = upload_next_state(s1, UploadEvent::Staged { ok: true });
            let s3 = upload_next_state(s2, UploadEvent::Extracted { ok: true });
            let s4 = upload_next_state(s3, UploadEvent::SanitizerExited { ok: true });
            let s5 = upload_next_state(s4, UploadEvent::Committed { ok: true });
            let s6 = upload_next_state(s5, UploadEvent::Cleaned { ok: true });
            s6 == (UploadState::Done { new_version: (v + 1) as i32 })
        }),
        forall|a: UploadAction|
            #[trigger] upload_action_ok(
                UploadState::ReadingVersion,
                UploadEvent::VersionLoaded { version: Some(v) },
                a,
            ) ==> (a matches UploadAction::WriteStagedArchive { path } && path@
                == staging_path_spec(v + 1)),
        forall|a: UploadAction|
            #[trigger] upload_action_ok(
                UploadState::Staging { new_version: (v + 1) as i32 },
                UploadEvent::Staged { ok: true },
                a,
            ) ==> (a matches UploadAction::ExtractTo { archive, dest } && archive@
                == staging_path_spec(v + 1) && dest@ == archive_path_spec(v + 1)),
        forall|a: UploadAction|
            #[trigger] upload_action_ok(
                UploadState::Sanitizing { new_version: (v + 1) as i32 },
                UploadEvent::SanitizerExited { ok: true },
                a,
            ) ==> (a matches UploadAction::CommitVersion { new_version } && new_version == v
                + 1),
{
}

} // verus!
