//! Metadata target parameters: `mdt.<target>.<param>=<value>`.
use crate::base_parsers::{advances, key_at, lift_view, Outcome, Parsed};
use crate::types::{Record, RecordView, TargetField, TargetVariant};
use crate::values::{
    key_fits, key_if, keyed_record, opt_key_view, pattern, prefixed_target, read_keyed_record,
    read_prefixed_target, strings_view, Key, ValueKind,
};
use vstd::prelude::*;

verus! {

pub const MDT: &'static str = "mdt";

pub const JOB_STATS: &'static str = "job_stats";

pub const STATS: &'static str = "md_stats";

pub const NUM_EXPORTS: &'static str = "num_exports";

pub const FILES_FREE: &'static str = "filesfree";

pub const FILES_TOTAL: &'static str = "filestotal";

pub const KBYTES_AVAIL: &'static str = "kbytesavail";

pub const KBYTES_FREE: &'static str = "kbytesfree";

pub const KBYTES_TOTAL: &'static str = "kbytestotal";

/// The query patterns for the metadata target parameters, in the order they are queried.
pub open spec fn mds_patterns() -> Seq<Seq<char>> {
    seq!["mdt.*."@ + JOB_STATS@, "mdt.*."@ + STATS@, "mdt.*MDT*."@ + NUM_EXPORTS@]
}

/// The query patterns for the metadata target parameters.
pub fn params() -> (r: Vec<String>)
    ensures
        strings_view(r@) == mds_patterns(),
{
    let mut v: Vec<String> = Vec::new();
    v.push(pattern("mdt.*.", JOB_STATS));
    v.push(pattern("mdt.*.", STATS));
    v.push(pattern("mdt.*MDT*.", NUM_EXPORTS));
    assert(strings_view(v@) =~= seq![
        "mdt.*."@ + JOB_STATS@,
        "mdt.*."@ + STATS@,
        "mdt.*MDT*."@ + NUM_EXPORTS@,
    ]);
    v
}

/// The metadata target key that stands at `q`.
pub open spec fn mdt_key(s: Seq<char>, q: int) -> Option<(TargetField, Seq<char>, ValueKind)> {
    if key_at(s, q, NUM_EXPORTS@) {
        Some((TargetField::NumExports, NUM_EXPORTS@, ValueKind::Count))
    } else if key_at(s, q, STATS@) {
        Some((TargetField::Stats, STATS@, ValueKind::Table))
    } else if key_at(s, q, JOB_STATS@) {
        Some((TargetField::JobStatsMdt, JOB_STATS@, ValueKind::Jobs))
    } else if key_at(s, q, FILES_FREE@) {
        Some((TargetField::FilesFree, FILES_FREE@, ValueKind::Count))
    } else if key_at(s, q, FILES_TOTAL@) {
        Some((TargetField::FilesTotal, FILES_TOTAL@, ValueKind::Count))
    } else if key_at(s, q, KBYTES_AVAIL@) {
        Some((TargetField::BytesAvail, KBYTES_AVAIL@, ValueKind::KiloBytes))
    } else if key_at(s, q, KBYTES_FREE@) {
        Some((TargetField::BytesFree, KBYTES_FREE@, ValueKind::KiloBytes))
    } else if key_at(s, q, KBYTES_TOTAL@) {
        Some((TargetField::BytesTotal, KBYTES_TOTAL@, ValueKind::KiloBytes))
    } else {
        None
    }
}

fn find_mdt_key(s: &[char], q: usize) -> (r: Option<Key>)
    requires
        q <= s@.len(),
    ensures
        opt_key_view(r) == mdt_key(s@, q as int),
        key_fits(s, q, r),
{
    let k = key_if(s, q, NUM_EXPORTS, TargetField::NumExports, ValueKind::Count);
    if k.is_some() {
        return k;
    }
    let k = key_if(s, q, STATS, TargetField::Stats, ValueKind::Table);
    if k.is_some() {
        return k;
    }
    let k = key_if(s, q, JOB_STATS, TargetField::JobStatsMdt, ValueKind::Jobs);
    if k.is_some() {
        return k;
    }
    let k = key_if(s, q, FILES_FREE, TargetField::FilesFree, ValueKind::Count);
    if k.is_some() {
        return k;
    }
    let k = key_if(s, q, FILES_TOTAL, TargetField::FilesTotal, ValueKind::Count);
    if k.is_some() {
        return k;
    }
    let k = key_if(s, q, KBYTES_AVAIL, TargetField::BytesAvail, ValueKind::KiloBytes);
    if k.is_some() {
        return k;
    }
    let k = key_if(s, q, KBYTES_FREE, TargetField::BytesFree, ValueKind::KiloBytes);
    if k.is_some() {
        return k;
    }
    key_if(s, q, KBYTES_TOTAL, TargetField::BytesTotal, ValueKind::KiloBytes)
}

/// One metadata target record.
pub open spec fn mdt_record(s: Seq<char>, p: int) -> Outcome<RecordView> {
    match prefixed_target(s, p, MDT@) {
        Outcome::Match(t, q) => keyed_record(s, q, TargetVariant::MDT, t, mdt_key(s, q)),
        _ => Outcome::NoMatch,
    }
}

/// Reads one metadata target record.
pub fn parse(s: &[char], p: usize) -> (r: Parsed<Record>)
    requires
        p <= s@.len(),
    ensures
        lift_view(r) == mdt_record(s@, p as int),
        advances(lift_view(r), s@, p as int),
{
    match read_prefixed_target(s, p, MDT) {
        Parsed::Match(t, q) => {
            let k = find_mdt_key(s, q);
            read_keyed_record(s, q, TargetVariant::MDT, t, k)
        },
        _ => Parsed::NoMatch,
    }
}

} // verus!
