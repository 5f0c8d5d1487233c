//! The shapes of the system-status report.
//!
//! The status endpoint reports host statistics — uptime, memory, disks —
//! as human-readable strings.  Gathering those numbers and rendering them
//! is presentation work done by the surrounding application; only the
//! shapes of the report live here.

use vstd::prelude::*;

verus! {

/// The system-status report served to clients.
#[derive(Debug)]
pub struct StatusData {
    pub uptime: String,
    pub total_memory: String,
    pub used_memory: String,
    pub disk_info: Vec<DiskData>,
}

/// One disk of the system-status report.
#[derive(Debug)]
pub struct DiskData {
    pub name: String,
    pub available_space: String,
    pub total_space: String,
}

} // verus!
