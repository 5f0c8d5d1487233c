//! Core logic of an archive-versioning web service.
//!
//! Uploaded archives are stored as versioned snapshots, unpacked, and later
//! served back as a directory inventory and as base64-encoded files; a second
//! capability tracks asynchronous image-generation jobs through a single
//! on-disk file per job.  This crate holds the verified logic of that
//! pipeline: the monotonic version counter and its on-disk record format,
//! the zero-padded version labels and the paths derived from them, the
//! inventory tree walk, the job-state classification, and the decision
//! state machines that drive the upload and generation pipelines.  All
//! filesystem, network and process work stays outside, in the surrounding
//! application, which feeds plain values in and carries the decisions out.

pub mod encoding;
pub mod errors;
pub mod generate;
pub mod images;
pub mod inventory;
pub mod jobs;
pub mod pages;
pub mod paths;
pub mod status;
pub mod text;
pub mod upload;
pub mod version;
