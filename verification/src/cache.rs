//! The persisted download record and the resume-or-restart decision.
//!
//! A destination directory carries a record of the target URL, the request
//! headers and the playlist checksum it was downloaded for.  The directory is
//! trusted as-is exactly when a record is present and its checksum equals the
//! freshly resolved one; on any mismatch the whole directory is a write-off.

use vstd::prelude::*;
use crate::strutil::str_eq;

verus! {

/// What the destination directory remembers: target, headers, checksum.
#[derive(Debug)]
pub struct DownloadRecord {
    pub target: String,
    pub headers: Vec<(String, String)>,
    pub m3u8_sum: String,
}

impl DownloadRecord {
    /// A record of the given target identity.
    pub fn new(target: String, headers: Vec<(String, String)>, m3u8_sum: String) -> (r: Self)
        ensures
            r.target == target,
            r.headers == headers,
            r.m3u8_sum == m3u8_sum,
    {
        DownloadRecord { target, headers, m3u8_sum }
    }
}

/// Whether a loaded record validates the directory for resume: a record was
/// readable and its checksum equals the current playlist's.  Absence or
/// corruption (`None`) never validates.
pub open spec fn record_valid_of(record: Option<DownloadRecord>, sum: Seq<char>) -> bool {
    match record {
        Some(rec) => rec.m3u8_sum@ == sum,
        None => false,
    }
}

/// Decides resume versus restart: true exactly when a record was loaded and
/// its checksum equals `sum`.
pub fn cache_is_valid(record: &Option<DownloadRecord>, sum: &str) -> (r: bool)
    ensures
        r == record_valid_of(*record, sum@),
{
    match record {
        Some(rec) => str_eq(rec.m3u8_sum.as_str(), sum),
        None => false,
    }
}

} // verus!
