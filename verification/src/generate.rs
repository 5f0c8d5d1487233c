//! The background generation run, as a decision state machine.
//!
//! Generating a random image alternates outside work (file writes, child
//! processes, a rename) with decisions.  The decisions live here: the
//! machine is stepped with the outcome of each outside action and answers
//! with the next state and the next action.  The surrounding application
//! performs the actions — it never decides.
//!
//! The run mirrors the job lifecycle: write the initial progress marker,
//! look up the current archive version, pipe the recipe generator into the
//! compositor, and judge the outcome.  A failed generator deletes the job
//! file; a successful run ends by renaming the produced artifact over the
//! job file, completing the job in a single filesystem operation.

use vstd::prelude::*;

use crate::encoding::bytes_to_string;
use crate::errors::CoreError;
use crate::paths::{generator_input_path, generator_input_path_spec, job_path_spec, get_job_path};
use vstd::utf8::{decode_utf8, valid_utf8};

verus! {

/// Where a generation run stands.
#[derive(Debug)]
pub enum GenState {
    /// Nothing has happened yet.
    Start,
    /// The initial progress marker is being written.
    WritingInitialMarker,
    /// The current archive version is being read.
    LoadingVersion,
    /// The recipe generator is being spawned on the entry-point path.
    SpawningGenerator,
    /// The midway progress marker is being written.
    WritingMidMarker,
    /// The compositor is being spawned, fed by the generator.
    SpawningCompositor,
    /// Both processes are running; their exit is awaited.
    AwaitingExit,
    /// The generator failed; the job file is being removed.
    RemovingJobFile,
    /// The compositor named an artifact; its existence is being checked.
    CheckingArtifact { artifact: String },
    /// The artifact is being renamed over the job file.
    RenamingArtifact { artifact: String },
    /// The job completed.
    Done,
    /// The run failed; the job file, if still present, stays a stale marker
    /// or was removed, and the client sees only non-progress.
    Failed { error: CoreError },
}

/// The outcome of the last outside action, fed back into the machine.
#[derive(Debug)]
pub enum GenEvent {
    Started,
    FileWritten { ok: bool },
    VersionLoaded { version: Option<i32> },
    Spawned { ok: bool },
    ProcessesExited { generator_ok: bool, output: Vec<u8> },
    FileRemoved { ok: bool },
    ArtifactChecked { exists: bool },
    RenameFinished { ok: bool },
}

/// The outside work the application must perform next.
#[derive(Debug)]
pub enum GenAction {
    /// Write `content` to the job file at `path`.
    WriteJobFile { path: String, content: String },
    /// Read the version record and report the current version.
    LoadVersion,
    /// Spawn the recipe generator on `input_path`, stdout piped.
    SpawnGenerator { input_path: String },
    /// Spawn the compositor with `--image-name image_name`, fed by the
    /// generator's stdout.
    SpawnCompositor { image_name: String },
    /// Wait for both child processes and collect the compositor's stdout.
    AwaitProcesses,
    /// Remove the job file at `path`.
    RemoveJobFile { path: String },
    /// Check whether a file exists at `path`.
    CheckArtifact { path: String },
    /// Rename `from` over `to`, atomically completing the job.
    RenameArtifact { from: String, to: String },
    /// The run is over; nothing is left to do.
    Stop,
}

/// The artifact path in the compositor's standard output: the decoded text
/// with its trailing newline removed, and empty (meaning: no usable output)
/// when the text is not UTF-8 or does not end in a newline.
pub open spec fn render_output_spec(out: Seq<u8>) -> Seq<char> {
    if valid_utf8(out) {
        let s = decode_utf8(out);
        if s.len() > 0 && s.last() == '\n' {
            s.drop_last()
        } else {
            Seq::empty()
        }
    } else {
        Seq::empty()
    }
}

/// Extracts the artifact path from the compositor's standard output;
/// `None` when there is no usable output.
pub fn render_output_path(out: &Vec<u8>) -> (r: Option<String>)
    ensures
        match r {
            Some(p) => p@ == render_output_spec(out@) && p@.len() > 0,
            None => render_output_spec(out@).len() == 0,
        },
{
    match bytes_to_string(out) {
        Some(s) => {
            let n = s.as_str().unicode_len();
            if n <= 1 {
                return None;
            }
            if s.as_str().get_char(n - 1) != '\n' {
                return None;
            }
            let trimmed = s.as_str().substring_char(0, n - 1);
            proof {
                assert(trimmed@ =~= decode_utf8(out@).drop_last());
            }
            Some(String::from_str(trimmed))
        },
        None => None,
    }
}

/// The transition relation of the generation machine: from state `s` under
/// event `e`, the machine moves to `s2` and asks for `a`.  Any event that
/// does not belong to the state leaves the state unchanged and asks for
/// nothing.
pub open spec fn gen_step_ok(
    job_id: Seq<char>,
    s: GenState,
    e: GenEvent,
    s2: GenState,
    a: GenAction,
) -> bool {
    match (s, e) {
        (GenState::Start, GenEvent::Started) => {
            &&& s2 is WritingInitialMarker
            &&& a matches GenAction::WriteJobFile { path, content }
            &&& path@ == job_path_spec(job_id)
            &&& content@ == "progress: 0%"@
        },
        (GenState::WritingInitialMarker, GenEvent::FileWritten { ok }) => {
            if ok {
                s2 is LoadingVersion && a is LoadVersion
            } else {
                (s2 matches GenState::Failed { error: CoreError::IoError }) && a is Stop
            }
        },
        (GenState::LoadingVersion, GenEvent::VersionLoaded { version }) => {
            match version {
                Some(v) => if v >= 0 {
                    &&& s2 is SpawningGenerator
                    &&& a matches GenAction::SpawnGenerator { input_path }
                    &&& input_path@ == generator_input_path_spec(v as int)
                } else {
                    (s2 matches GenState::Failed { error: CoreError::StorageError }) && a is Stop
                },
                None => (s2 matches GenState::Failed { error: CoreError::StorageError })
                    && a is Stop,
            }
        },
        (GenState::SpawningGenerator, GenEvent::Spawned { ok }) => {
            if ok {
                &&& s2 is WritingMidMarker
                &&& a matches GenAction::WriteJobFile { path, content }
                &&& path@ == job_path_spec(job_id)
                &&& content@ == "progress: 20%"@
            } else {
                (s2 matches GenState::Failed { error: CoreError::GenerationError }) && a is Stop
            }
        },
        (GenState::WritingMidMarker, GenEvent::FileWritten { ok }) => {
            if ok {
                &&& s2 is SpawningCompositor
                &&& a matches GenAction::SpawnCompositor { image_name }
                &&& image_name@ == job_id
            } else {
                (s2 matches GenState::Failed { error: CoreError::IoError }) && a is Stop
            }
        },
        (GenState::SpawningCompositor, GenEvent::Spawned { ok }) => {
            if ok {
                s2 is AwaitingExit && a is AwaitProcesses
            } else {
                (s2 matches GenState::Failed { error: CoreError::GenerationError }) && a is Stop
            }
        },
        (GenState::AwaitingExit, GenEvent::ProcessesExited { generator_ok, output }) => {
            if !generator_ok {
                &&& s2 is RemovingJobFile
                &&& a matches GenAction::RemoveJobFile { path }
                &&& path@ == job_path_spec(job_id)
            } else {
                let parsed = render_output_spec(output@);
                if parsed.len() == 0 {
                    (s2 matches GenState::Failed { error: CoreError::GenerationError })
                        && a is Stop
                } else {
                    &&& s2 matches GenState::CheckingArtifact { artifact } && artifact@ == parsed
                    &&& a matches GenAction::CheckArtifact { path } && path@ == parsed
                }
            }
        },
        (GenState::RemovingJobFile, GenEvent::FileRemoved { ok }) => {
            if ok {
                (s2 matches GenState::Failed { error: CoreError::GenerationError }) && a is Stop
            } else {
                (s2 matches GenState::Failed { error: CoreError::IoError }) && a is Stop
            }
        },
        (GenState::CheckingArtifact { artifact }, GenEvent::ArtifactChecked { exists }) => {
            if exists {
                &&& s2 matches GenState::RenamingArtifact { artifact: a2 } && a2@ == artifact@
                &&& a matches GenAction::RenameArtifact { from, to }
                &&& from@ == artifact@
                &&& to@ == job_path_spec(job_id)
            } else {
                (s2 matches GenState::Failed { error: CoreError::GenerationError }) && a is Stop
            }
        },
        (GenState::RenamingArtifact { artifact: _ }, GenEvent::RenameFinished { ok }) => {
            if ok {
                s2 is Done && a is Stop
            } else {
                (s2 matches GenState::Failed { error: CoreError::IoError }) && a is Stop
            }
        },
        (s1, _) => s2 == s1 && a is Stop,
    }
}

/// Steps the generation machine: hands back the next state and the outside
/// action the application must perform.
pub fn generation_step(job_id: &str, state: GenState, event: GenEvent) -> (r: (
    GenState,
    GenAction,
))
    ensures
        gen_step_ok(job_id@, state, event, r.0, r.1),
{
    match (state, event) {
        (GenState::Start, GenEvent::Started) => (
            GenState::WritingInitialMarker,
            GenAction::WriteJobFile {
                path: get_job_path(job_id),
                content: String::from_str("progress: 0%"),
            },
        ),
        (GenState::WritingInitialMarker, GenEvent::FileWritten { ok }) => {
            if ok {
                (GenState::LoadingVersion, GenAction::LoadVersion)
            } else {
                (GenState::Failed { error: CoreError::IoError }, GenAction::Stop)
            }
        },
        (GenState::LoadingVersion, GenEvent::VersionLoaded { version }) => {
            match version {
                Some(v) => {
                    if v >= 0 {
                        (
                            GenState::SpawningGenerator,
                            GenAction::SpawnGenerator { input_path: generator_input_path(v) },
                        )
                    } else {
                        (GenState::Failed { error: CoreError::StorageError }, GenAction::Stop)
                    }
                },
                None => (GenState::Failed { error: CoreError::StorageError }, GenAction::Stop),
            }
        },
        (GenState::SpawningGenerator, GenEvent::Spawned { ok }) => {
            if ok {
                (
                    GenState::WritingMidMarker,
                    GenAction::WriteJobFile {
                        path: get_job_path(job_id),
                        content: String::from_str("progress: 20%"),
                    },
                )
            } else {
                (GenState::Failed { error: CoreError::GenerationError }, GenAction::Stop)
            }
        },
        (GenState::WritingMidMarker, GenEvent::FileWritten { ok }) => {
            if ok {
                (
                    GenState::SpawningCompositor,
                    GenAction::SpawnCompositor { image_name: String::from_str(job_id) },
                )
            } else {
                (GenState::Failed { error: CoreError::IoError }, GenAction::Stop)
            }
        },
        (GenState::SpawningCompositor, GenEvent::Spawned { ok }) => {
            if ok {
                (GenState::AwaitingExit, GenAction::AwaitProcesses)
            } else {
                (GenState::Failed { error: CoreError::GenerationError }, GenAction::Stop)
            }
        },
        (GenState::AwaitingExit, GenEvent::ProcessesExited { generator_ok, output }) => {
            if !generator_ok {
                (
                    GenState::RemovingJobFile,
                    GenAction::RemoveJobFile { path: get_job_path(job_id) },
                )
            } else {
                match render_output_path(&output) {
                    Some(artifact) => {
                        let check_path = artifact.clone();
                        (
                            GenState::CheckingArtifact { artifact },
                            GenAction::CheckArtifact { path: check_path },
                        )
                    },
                    None => (
                        GenState::Failed { error: CoreError::GenerationError },
                        GenAction::Stop,
                    ),
                }
            }
        },
        (GenState::RemovingJobFile, GenEvent::FileRemoved { ok }) => {
            if ok {
                (GenState::Failed { error: CoreError::GenerationError }, GenAction::Stop)
            } else {
                (GenState::Failed { error: CoreError::IoError }, GenAction::Stop)
            }
        },
        (GenState::CheckingArtifact { artifact }, GenEvent::ArtifactChecked { exists }) => {
            if exists {
                let from = artifact.clone();
                (
                    GenState::RenamingArtifact { artifact },
                    GenAction::RenameArtifact { from, to: get_job_path(job_id) },
                )
            } else {
                (GenState::Failed { error: CoreError::GenerationError }, GenAction::Stop)
            }
        },
        (GenState::RenamingArtifact { artifact }, GenEvent::RenameFinished { ok }) => {
            if ok {
                (GenState::Done, GenAction::Stop)
            } else {
                (GenState::Failed { error: CoreError::IoError }, GenAction::Stop)
            }
        },
        (s1, _) => (s1, GenAction::Stop),
    }
}

/// A job completes only through the final rename onto its own job file, and
/// the job file is removed only after the generator has failed: completion
/// is a single filesystem operation, and a deleted job file always means a
/// failed run.
pub proof fn lemma_generation_completion(
    job_id: Seq<char>,
    s: GenState,
    e: GenEvent,
    s2: GenState,
    a: GenAction,
)
    requires
        gen_step_ok(job_id, s, e, s2, a),
    ensures
        a matches GenAction::RenameArtifact { from: _, to } ==> to@ == job_path_spec(job_id),
        s2 is Done ==> s is Done || (s is RenamingArtifact && e matches GenEvent::RenameFinished {
            ok: true,
        }),
        a is RemoveJobFile ==> s is AwaitingExit && e matches GenEvent::ProcessesExited {
            generator_ok: false,
            output: _,
        },
{
}

} // verus!
