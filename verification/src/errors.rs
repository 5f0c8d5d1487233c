//! The error taxonomy of the core pipeline.

use vstd::prelude::*;

verus! {

/// Errors of the archive and job pipeline.
///
/// - `IoError`: a filesystem read, write or create failed.
/// - `StorageError`: the version record is unreadable or corrupt, or cannot
///   be written.
/// - `ExtractionError`: the uploaded archive is malformed or unpacking failed.
/// - `GenerationError`: an external generation process failed or produced no
///   usable output.
#[derive(Clone, Copy, Debug, PartialEq, Eq, Structural)]
pub enum CoreError {
    IoError,
    StorageError,
    ExtractionError,
    GenerationError,
}

impl CoreError {
    /// A short human-readable name of the error, for the application's logs.
    pub fn describe(&self) -> (r: &'static str)
        ensures
            *self is IoError ==> r@ == "filesystem operation failed"@,
            *self is StorageError ==> r@ == "version record unreadable or unwritable"@,
            *self is ExtractionError ==> r@ == "archive could not be unpacked"@,
            *self is GenerationError ==> r@ == "image generation failed"@,
    {
        match self {
            CoreError::IoError => "filesystem operation failed",
            CoreError::StorageError => "version record unreadable or unwritable",
            CoreError::ExtractionError => "archive could not be unpacked",
            CoreError::GenerationError => "image generation failed",
        }
    }
}

} // verus!
