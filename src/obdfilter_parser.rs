//! Object storage target parameters: `obdfilter.<target>.<param>=<value>`.
use crate::base_parsers::{advances, key_at, lift_view, Outcome, Parsed};
use crate::types::{Record, RecordView, TargetField, TargetVariant};
use crate::values::{
    key_fits, key_if, keyed_record, opt_key_view, pattern, prefixed_target, read_keyed_record,
    read_prefixed_target, strings_view, Key, ValueKind,
};
use vstd::prelude::*;

verus! {

pub const OBDFILTER: &'static str = "obdfilter";

pub const JOBSTATS: &'static str = "job_stats";

pub const STATS: &'static str = "stats";

pub const BRW_STATS: &'static str = "brw_stats";

pub const FILES_FREE: &'static str = "filesfree";

pub const FILES_TOTAL: &'static str = "filestotal";

pub const FS_TYPE: &'static str = "fstype";

pub const KBYTES_AVAIL: &'static str = "kbytesavail";

pub const KBYTES_FREE: &'static str = "kbytesfree";

pub const KBYTES_TOTAL: &'static str = "kbytestotal";

pub const NUM_EXPORTS: &'static str = "num_exports";

pub const TOT_DIRTY: &'static str = "tot_dirty";

pub const TOT_GRANTED: &'static str = "tot_granted";

pub const TOT_PENDING: &'static str = "tot_pending";

/// The parameters read from object storage targets, in the order they are queried.
pub open spec fn obd_stats() -> Seq<Seq<char>> {
    seq![
        JOBSTATS@,
        STATS@,
        BRW_STATS@,
        FILES_FREE@,
        FILES_TOTAL@,
        FS_TYPE@,
        KBYTES_AVAIL@,
        KBYTES_FREE@,
        KBYTES_TOTAL@,
        NUM_EXPORTS@,
        TOT_DIRTY@,
        TOT_GRANTED@,
        TOT_PENDING@,
    ]
}

pub open spec fn obd_pattern_prefix() -> Seq<char> {
    "obdfilter.*OST*."@
}

/// The query patterns for the object storage target parameters.
pub fn obd_params() -> (r: Vec<String>)
    ensures
        strings_view(r@) == obd_stats().map_values(|n: Seq<char>| obd_pattern_prefix() + n),
{
    let prefix = "obdfilter.*OST*.";
    let mut v: Vec<String> = Vec::new();
    v.push(pattern(prefix, JOBSTATS));
    v.push(pattern(prefix, STATS));
    v.push(pattern(prefix, BRW_STATS));
    v.push(pattern(prefix, FILES_FREE));
    v.push(pattern(prefix, FILES_TOTAL));
    v.push(pattern(prefix, FS_TYPE));
    v.push(pattern(prefix, KBYTES_AVAIL));
    v.push(pattern(prefix, KBYTES_FREE));
    v.push(pattern(prefix, KBYTES_TOTAL));
    v.push(pattern(prefix, NUM_EXPORTS));
    v.push(pattern(prefix, TOT_DIRTY));
    v.push(pattern(prefix, TOT_GRANTED));
    v.push(pattern(prefix, TOT_PENDING));
    assert(strings_view(v@) =~= obd_stats().map_values(|n: Seq<char>| obd_pattern_prefix() + n));
    v
}

/// The key that stands at `q`, with the statistic it names and its value's shape.
pub open spec fn obdfilter_key(s: Seq<char>, q: int) -> Option<(TargetField, Seq<char>, ValueKind)> {
    if key_at(s, q, JOBSTATS@) {
        Some((TargetField::JobStatsOst, JOBSTATS@, ValueKind::Jobs))
    } else if key_at(s, q, STATS@) {
        Some((TargetField::Stats, STATS@, ValueKind::Table))
    } else if key_at(s, q, BRW_STATS@) {
        Some((TargetField::BrwStats, BRW_STATS@, ValueKind::Histograms))
    } else if key_at(s, q, FILES_FREE@) {
        Some((TargetField::FilesFree, FILES_FREE@, ValueKind::Count))
    } else if key_at(s, q, FILES_TOTAL@) {
        Some((TargetField::FilesTotal, FILES_TOTAL@, ValueKind::Count))
    } else if key_at(s, q, FS_TYPE@) {
        Some((TargetField::FsType, FS_TYPE@, ValueKind::Line))
    } else if key_at(s, q, KBYTES_AVAIL@) {
        Some((TargetField::BytesAvail, KBYTES_AVAIL@, ValueKind::KiloBytes))
    } else if key_at(s, q, KBYTES_FREE@) {
        Some((TargetField::BytesFree, KBYTES_FREE@, ValueKind::KiloBytes))
    } else if key_at(s, q, KBYTES_TOTAL@) {
        Some((TargetField::BytesTotal, KBYTES_TOTAL@, ValueKind::KiloBytes))
    } else if key_at(s, q, NUM_EXPORTS@) {
        Some((TargetField::NumExports, NUM_EXPORTS@, ValueKind::Count))
    } else if key_at(s, q, TOT_DIRTY@) {
        Some((TargetField::TotDirty, TOT_DIRTY@, ValueKind::Count))
    } else if key_at(s, q, TOT_GRANTED@) {
        Some((TargetField::TotGranted, TOT_GRANTED@, ValueKind::Count))
    } else if key_at(s, q, TOT_PENDING@) {
        Some((TargetField::TotPending, TOT_PENDING@, ValueKind::Count))
    } else {
        None
    }
}

fn find_obdfilter_key(s: &[char], q: usize) -> (r: Option<Key>)
    requires
        q <= s@.len(),
    ensures
        opt_key_view(r) == obdfilter_key(s@, q as int),
        key_fits(s, q, r),
{
    let k = key_if(s, q, JOBSTATS, TargetField::JobStatsOst, ValueKind::Jobs);
    if k.is_some() {
        return k;
    }
    let k = key_if(s, q, STATS, TargetField::Stats, ValueKind::Table);
    if k.is_some() {
        return k;
    }
    let k = key_if(s, q, BRW_STATS, TargetField::BrwStats, ValueKind::Histograms);
    if k.is_some() {
        return k;
    }
    let k = key_if(s, q, FILES_FREE, TargetField::FilesFree, ValueKind::Count);
    if k.is_some() {
        return k;
    }
    let k = key_if(s, q, FILES_TOTAL, TargetField::FilesTotal, ValueKind::Count);
    if k.is_some() {
        return k;
    }
    let k = key_if(s, q, FS_TYPE, TargetField::FsType, ValueKind::Line);
    if k.is_some() {
        return k;
    }
    let k = key_if(s, q, KBYTES_AVAIL, TargetField::BytesAvail, ValueKind::KiloBytes);
    if k.is_some() {
        return k;
    }
    let k = key_if(s, q, KBYTES_FREE, TargetField::BytesFree, ValueKind::KiloBytes);
    if k.is_some() {
        return k;
    }
    let k = key_if(s, q, KBYTES_TOTAL, TargetField::BytesTotal, ValueKind::KiloBytes);
    if k.is_some() {
        return k;
    }
    let k = key_if(s, q, NUM_EXPORTS, TargetField::NumExports, ValueKind::Count);
    if k.is_some() {
        return k;
    }
    let k = key_if(s, q, TOT_DIRTY, TargetField::TotDirty, ValueKind::Count);
    if k.is_some() {
        return k;
    }
    let k = key_if(s, q, TOT_GRANTED, TargetField::TotGranted, ValueKind::Count);
    if k.is_some() {
        return k;
    }
    key_if(s, q, TOT_PENDING, TargetField::TotPending, ValueKind::Count)
}

/// One object storage target record.
pub open spec fn obdfilter_record(s: Seq<char>, p: int) -> Outcome<RecordView> {
    match prefixed_target(s, p, OBDFILTER@) {
        Outcome::Match(t, q) => keyed_record(s, q, TargetVariant::OST, t, obdfilter_key(s, q)),
        _ => Outcome::NoMatch,
    }
}

/// Reads one object storage target record.
pub fn parse(s: &[char], p: usize) -> (r: Parsed<Record>)
    requires
        p <= s@.len(),
    ensures
        lift_view(r) == obdfilter_record(s@, p as int),
        advances(lift_view(r), s@, p as int),
{
    match read_prefixed_target(s, p, OBDFILTER) {
        Parsed::Match(t, q) => {
            let k = find_obdfilter_key(s, q);
            read_keyed_record(s, q, TargetVariant::OST, t, k)
        },
        _ => Parsed::NoMatch,
    }
}

} // verus!
