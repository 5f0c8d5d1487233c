//! The upload and generation pipelines, driven event by event.

use webapp_rust::errors::CoreError;
use webapp_rust::generate::{generation_step, render_output_path, GenAction, GenEvent, GenState};
use webapp_rust::upload::{
    classify_upload_field, upload_step, FieldAction, UploadAction, UploadEvent, UploadState,
};

#[test]
fn successful_upload_commits_the_next_version() {
    let (s, a) = upload_step(UploadState::Start, UploadEvent::Begin);
    assert_eq!(s, UploadState::ReadingVersion);
    assert!(matches!(a, UploadAction::LoadVersion));

    let (s, a) = upload_step(s, UploadEvent::VersionLoaded { version: Some(4) });
    assert_eq!(s, UploadState::Staging { new_version: 5 });
    match a {
        UploadAction::WriteStagedArchive { path } => {
            assert_eq!(path, "/app/data/archives/tmp/005.tar.gz")
        }
        _ => panic!("expected staging"),
    }

    let (s, a) = upload_step(s, UploadEvent::Staged { ok: true });
    assert_eq!(s, UploadState::Extracting { new_version: 5 });
    match a {
        UploadAction::ExtractTo { archive, dest } => {
            assert_eq!(archive, "/app/data/archives/tmp/005.tar.gz");
            assert_eq!(dest, "/app/data/archives/005");
        }
        _ => panic!("expected extraction"),
    }

    let (s, a) = upload_step(s, UploadEvent::Extracted { ok: true });
    assert_eq!(s, UploadState::Sanitizing { new_version: 5 });
    match a {
        UploadAction::RunSanitizer { path } => assert_eq!(path, "/app/data/archives/005"),
        _ => panic!("expected the sanitizer"),
    }

    let (s, a) = upload_step(s, UploadEvent::SanitizerExited { ok: false });
    assert_eq!(s, UploadState::Committing { new_version: 5 });
    assert!(matches!(a, UploadAction::CommitVersion { new_version: 5 }));

    let (s, a) = upload_step(s, UploadEvent::Committed { ok: true });
    assert_eq!(s, UploadState::CleaningUp { new_version: 5, committed: true });
    match a {
        UploadAction::RemoveStagingDir { path } => assert_eq!(path, "/app/data/archives/tmp"),
        _ => panic!("expected cleanup"),
    }

    let (s, a) = upload_step(s, UploadEvent::Cleaned { ok: true });
    assert_eq!(s, UploadState::Done { new_version: 5 });
    assert!(matches!(a, UploadAction::Stop));
}

#[test]
fn version_read_failure_aborts_before_staging() {
    let (s, a) = upload_step(UploadState::ReadingVersion, UploadEvent::VersionLoaded {
        version: None,
    });
    assert_eq!(s, UploadState::Failed { error: CoreError::StorageError });
    assert!(matches!(a, UploadAction::Stop));
}

#[test]
fn exhausted_version_counter_aborts() {
    let (s, a) = upload_step(UploadState::ReadingVersion, UploadEvent::VersionLoaded {
        version: Some(i32::MAX),
    });
    assert_eq!(s, UploadState::Failed { error: CoreError::StorageError });
    assert!(matches!(a, UploadAction::Stop));
}

#[test]
fn staging_failure_aborts_without_commit() {
    let (s, _) = upload_step(
        UploadState::Staging { new_version: 5 },
        UploadEvent::Staged { ok: false },
    );
    assert_eq!(s, UploadState::Failed { error: CoreError::IoError });
}

#[test]
fn extraction_failure_aborts_without_commit() {
    let (s, _) = upload_step(
        UploadState::Extracting { new_version: 5 },
        UploadEvent::Extracted { ok: false },
    );
    assert_eq!(s, UploadState::Failed { error: CoreError::ExtractionError });
}

#[test]
fn commit_failure_still_cleans_up_then_fails() {
    let (s, a) = upload_step(
        UploadState::Committing { new_version: 5 },
        UploadEvent::Committed { ok: false },
    );
    assert_eq!(s, UploadState::CleaningUp { new_version: 5, committed: false });
    assert!(matches!(a, UploadAction::RemoveStagingDir { .. }));
    let (s, _) = upload_step(s, UploadEvent::Cleaned { ok: true });
    assert_eq!(s, UploadState::Failed { error: CoreError::StorageError });
}

#[test]
fn cleanup_failure_is_ignored() {
    let (s, _) = upload_step(
        UploadState::CleaningUp { new_version: 9, committed: true },
        UploadEvent::Cleaned { ok: false },
    );
    assert_eq!(s, UploadState::Done { new_version: 9 });
}

#[test]
fn multipart_fields_are_classified_by_name() {
    assert_eq!(classify_upload_field(None), FieldAction::Reject);
    assert_eq!(classify_upload_field(Some("content-type")), FieldAction::Metadata);
    assert_eq!(classify_upload_field(Some("photo.png")), FieldAction::Skip);
    assert_eq!(classify_upload_field(Some("bundle.tar.gz")), FieldAction::Store);
    assert_eq!(classify_upload_field(Some("v2.tar.gz.backup")), FieldAction::Store);
}

#[test]
fn generation_happy_path_ends_in_a_rename() {
    let job = "7c9e6679-7425-40de-944b-e07fc1f90ae7";

    let (s, a) = generation_step(job, GenState::Start, GenEvent::Started);
    assert!(matches!(s, GenState::WritingInitialMarker));
    match a {
        GenAction::WriteJobFile { path, content } => {
            assert_eq!(path, format!("/app/jobs/{}", job));
            assert_eq!(content, "progress: 0%");
        }
        _ => panic!("expected the initial marker write"),
    }

    let (s, a) = generation_step(job, s, GenEvent::FileWritten { ok: true });
    assert!(matches!(s, GenState::LoadingVersion));
    assert!(matches!(a, GenAction::LoadVersion));

    let (s, a) = generation_step(job, s, GenEvent::VersionLoaded { version: Some(2) });
    assert!(matches!(s, GenState::SpawningGenerator));
    match a {
        GenAction::SpawnGenerator { input_path } => {
            assert_eq!(input_path, "/app/data/archives/002/sphynx_program/programm")
        }
        _ => panic!("expected the generator spawn"),
    }

    let (s, a) = generation_step(job, s, GenEvent::Spawned { ok: true });
    assert!(matches!(s, GenState::WritingMidMarker));
    match a {
        GenAction::WriteJobFile { content, .. } => assert_eq!(content, "progress: 20%"),
        _ => panic!("expected the midway marker write"),
    }

    let (s, a) = generation_step(job, s, GenEvent::FileWritten { ok: true });
    assert!(matches!(s, GenState::SpawningCompositor));
    match a {
        GenAction::SpawnCompositor { image_name } => assert_eq!(image_name, job),
        _ => panic!("expected the compositor spawn"),
    }

    let (s, a) = generation_step(job, s, GenEvent::Spawned { ok: true });
    assert!(matches!(s, GenState::AwaitingExit));
    assert!(matches!(a, GenAction::AwaitProcesses));

    let output: Vec<u8> = b"/tmp/render/cat.png\n".to_vec();
    let (s, a) = generation_step(job, s, GenEvent::ProcessesExited {
        generator_ok: true,
        output,
    });
    match &s {
        GenState::CheckingArtifact { artifact } => assert_eq!(artifact, "/tmp/render/cat.png"),
        _ => panic!("expected the artifact check"),
    }
    assert!(matches!(a, GenAction::CheckArtifact { .. }));

    let (s, a) = generation_step(job, s, GenEvent::ArtifactChecked { exists: true });
    assert!(matches!(s, GenState::RenamingArtifact { .. }));
    match a {
        GenAction::RenameArtifact { from, to } => {
            assert_eq!(from, "/tmp/render/cat.png");
            assert_eq!(to, format!("/app/jobs/{}", job));
        }
        _ => panic!("expected the final rename"),
    }

    let (s, a) = generation_step(job, s, GenEvent::RenameFinished { ok: true });
    assert!(matches!(s, GenState::Done));
    assert!(matches!(a, GenAction::Stop));
}

#[test]
fn generator_failure_removes_the_job_file() {
    let (s, a) = generation_step("j", GenState::AwaitingExit, GenEvent::ProcessesExited {
        generator_ok: false,
        output: b"ignored\n".to_vec(),
    });
    assert!(matches!(s, GenState::RemovingJobFile));
    match a {
        GenAction::RemoveJobFile { path } => assert_eq!(path, "/app/jobs/j"),
        _ => panic!("expected the job file removal"),
    }
    let (s, _) = generation_step("j", s, GenEvent::FileRemoved { ok: true });
    assert!(matches!(s, GenState::Failed { error: CoreError::GenerationError }));
}

#[test]
fn output_without_trailing_newline_fails_the_run() {
    let (s, _) = generation_step("j", GenState::AwaitingExit, GenEvent::ProcessesExited {
        generator_ok: true,
        output: b"/tmp/cat.png".to_vec(),
    });
    assert!(matches!(s, GenState::Failed { error: CoreError::GenerationError }));
}

#[test]
fn empty_output_fails_the_run() {
    let (s, _) = generation_step("j", GenState::AwaitingExit, GenEvent::ProcessesExited {
        generator_ok: true,
        output: Vec::new(),
    });
    assert!(matches!(s, GenState::Failed { error: CoreError::GenerationError }));
}

#[test]
fn missing_artifact_fails_the_run() {
    let s = GenState::CheckingArtifact { artifact: String::from("/tmp/cat.png") };
    let (s, _) = generation_step("j", s, GenEvent::ArtifactChecked { exists: false });
    assert!(matches!(s, GenState::Failed { error: CoreError::GenerationError }));
}

#[test]
fn missing_version_fails_the_run() {
    let (s, _) = generation_step("j", GenState::LoadingVersion, GenEvent::VersionLoaded {
        version: None,
    });
    assert!(matches!(s, GenState::Failed { error: CoreError::StorageError }));
}

#[test]
fn render_output_trims_exactly_one_newline() {
    assert_eq!(render_output_path(&b"/a/b\n".to_vec()).as_deref(), Some("/a/b"));
    assert!(render_output_path(&b"/a/b".to_vec()).is_none());
    assert!(render_output_path(&b"\n".to_vec()).is_none());
    assert!(render_output_path(&Vec::new()).is_none());
    assert!(render_output_path(&vec![0xFF, 0xFE, b'\n']).is_none());
}
