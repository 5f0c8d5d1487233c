//! Version labels and the filesystem layout derived from them.
//!
//! Every uploaded archive is identified by a zero-padded (width 3) decimal
//! version label.  The label names both the staged upload file and the
//! directory the archive is unpacked into; jobs live as flat files under a
//! jobs root.  The functions here compute those names and paths exactly.

use vstd::prelude::*;

use crate::text::{dec_digits, digit_str, lemma_dec_digits_wf, num_to_dec_str};

verus! {

/// The zero-padded (width 3) decimal label of a version number.
pub open spec fn zfill3(n: nat) -> Seq<char> {
    let d = dec_digits(n);
    if d.len() == 1 {
        seq!['0', '0'] + d
    } else if d.len() == 2 {
        seq!['0'] + d
    } else {
        d
    }
}

/// The directory of an extracted archive version under the archives root.
pub open spec fn archive_path_spec(version: int) -> Seq<char> {
    "/app/data/archives/"@ + zfill3(version as nat)
}

/// The staging file of an upload that will become `version`.
pub open spec fn staging_path_spec(version: int) -> Seq<char> {
    "/app/data/archives/tmp/"@ + zfill3(version as nat) + ".tar.gz"@
}

/// The entry-point directory handed to the recipe generator for a version.
pub open spec fn generator_input_path_spec(version: int) -> Seq<char> {
    archive_path_spec(version) + "/sphynx_program/programm"@
}

/// The flat file that records a job's state, under the jobs root.
pub open spec fn job_path_spec(job_id: Seq<char>) -> Seq<char> {
    "/app/jobs/"@ + job_id
}

/// Renders the zero-padded (width 3) version label.
pub fn version_label(version: i32) -> (r: String)
    requires
        version >= 0,
    ensures
        r@ == zfill3(version as nat),
{
    let digits = num_to_dec_str(version as u32);
    proof {
        lemma_dec_digits_wf(version as nat);
    }
    let len = digits.as_str().unicode_len();
    if len == 1 {
        let mut s = String::from_str(digit_str(0));
        s.append(digit_str(0));
        s.append(digits.as_str());
        proof {
            assert(s@ =~= zfill3(version as nat));
        }
        s
    } else if len == 2 {
        let mut s = String::from_str(digit_str(0));
        s.append(digits.as_str());
        proof {
            assert(s@ =~= zfill3(version as nat));
        }
        s
    } else {
        digits
    }
}

/// The directory that holds the extracted archive of `version`.
pub fn get_archive_path(version: i32) -> (r: String)
    requires
        version >= 0,
    ensures
        r@ == archive_path_spec(version as int),
{
    let mut s = String::from_str("/app/data/archives/");
    let label = version_label(version);
    s.append(label.as_str());
    s
}

/// The staging file an upload is first written to, keyed by its future label.
pub fn staging_path(version: i32) -> (r: String)
    requires
        version >= 0,
    ensures
        r@ == staging_path_spec(version as int),
{
    let mut s = String::from_str("/app/data/archives/tmp/");
    let label = version_label(version);
    s.append(label.as_str());
    s.append(".tar.gz");
    s
}

/// The entry-point path inside an extracted archive, used as the recipe
/// generator's input.
pub fn generator_input_path(version: i32) -> (r: String)
    requires
        version >= 0,
    ensures
        r@ == generator_input_path_spec(version as int),
{
    let mut s = get_archive_path(version);
    s.append("/sphynx_program/programm");
    s
}

/// The file that records the state of job `job_id`.
pub fn get_job_path(job_id: &str) -> (r: String)
    ensures
        r@ == job_path_spec(job_id@),
{
    let mut s = String::from_str("/app/jobs/");
    s.append(job_id);
    s
}

} // verus!
