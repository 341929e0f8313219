//! Management target parameters: `mgs.<target>.num_exports=` and
//! `mgs.<target>.mgs.<param>=`.
use crate::base_parsers::{advances, key_at, lift_view, Outcome, Parsed};
use crate::text::{lit_at, match_lit};
use crate::types::{Record, RecordView, TargetField, TargetVariant};
use crate::values::{
    key_fits, key_if, keyed_record, opt_key_view, pattern, prefixed_target, read_keyed_record,
    read_prefixed_target, strings_view, Key, ValueKind,
};
use vstd::prelude::*;

verus! {

pub const MGS: &'static str = "mgs";

pub const STATS: &'static str = "stats";

pub const THREADS_MIN: &'static str = "threads_min";

pub const THREADS_MAX: &'static str = "threads_max";

pub const THREADS_STARTED: &'static str = "threads_started";

pub const NUM_EXPORTS: &'static str = "num_exports";

/// The query patterns for the management target parameters, in the order they are queried.
pub open spec fn mgs_patterns() -> Seq<Seq<char>> {
    seq![
        "mgs.*.mgs."@ + STATS@,
        "mgs.*.mgs."@ + THREADS_MAX@,
        "mgs.*.mgs."@ + THREADS_MIN@,
        "mgs.*.mgs."@ + THREADS_STARTED@,
        "mgs.*."@ + NUM_EXPORTS@,
    ]
}

/// The query patterns for the management target parameters.
pub fn params() -> (r: Vec<String>)
    ensures
        strings_view(r@) == mgs_patterns(),
{
    let mut v: Vec<String> = Vec::new();
    v.push(pattern("mgs.*.mgs.", STATS));
    v.push(pattern("mgs.*.mgs.", THREADS_MAX));
    v.push(pattern("mgs.*.mgs.", THREADS_MIN));
    v.push(pattern("mgs.*.mgs.", THREADS_STARTED));
    v.push(pattern("mgs.*.", NUM_EXPORTS));
    assert(strings_view(v@) =~= seq![
        "mgs.*.mgs."@ + STATS@,
        "mgs.*.mgs."@ + THREADS_MAX@,
        "mgs.*.mgs."@ + THREADS_MIN@,
        "mgs.*.mgs."@ + THREADS_STARTED@,
        "mgs.*."@ + NUM_EXPORTS@,
    ]);
    v
}

/// The keys of the management service, after `mgs.`.
pub open spec fn mgs_service_key(s: Seq<char>, q: int) -> Option<(TargetField, Seq<char>, ValueKind)> {
    if key_at(s, q, STATS@) {
        Some((TargetField::Stats, STATS@, ValueKind::Table))
    } else if key_at(s, q, THREADS_MIN@) {
        Some((TargetField::ThreadsMin, THREADS_MIN@, ValueKind::Count))
    } else if key_at(s, q, THREADS_MAX@) {
        Some((TargetField::ThreadsMax, THREADS_MAX@, ValueKind::Count))
    } else if key_at(s, q, THREADS_STARTED@) {
        Some((TargetField::ThreadsStarted, THREADS_STARTED@, ValueKind::Count))
    } else {
        None
    }
}

fn find_service_key(s: &[char], q: usize) -> (r: Option<Key>)
    requires
        q <= s@.len(),
    ensures
        opt_key_view(r) == mgs_service_key(s@, q as int),
        key_fits(s, q, r),
{
    let k = key_if(s, q, STATS, TargetField::Stats, ValueKind::Table);
    if k.is_some() {
        return k;
    }
    let k = key_if(s, q, THREADS_MIN, TargetField::ThreadsMin, ValueKind::Count);
    if k.is_some() {
        return k;
    }
    let k = key_if(s, q, THREADS_MAX, TargetField::ThreadsMax, ValueKind::Count);
    if k.is_some() {
        return k;
    }
    key_if(s, q, THREADS_STARTED, TargetField::ThreadsStarted, ValueKind::Count)
}

/// One management target record.
pub open spec fn mgs_record(s: Seq<char>, p: int) -> Outcome<RecordView> {
    match prefixed_target(s, p, MGS@) {
        Outcome::Match(t, q) => if key_at(s, q, NUM_EXPORTS@) {
            keyed_record(
                s,
                q,
                TargetVariant::MGT,
                t,
                Some((TargetField::NumExports, NUM_EXPORTS@, ValueKind::Count)),
            )
        } else if lit_at(s, q, "mgs."@) {
            keyed_record(
                s,
                q + "mgs."@.len(),
                TargetVariant::MGT,
                t,
                mgs_service_key(s, q + "mgs."@.len()),
            )
        } else {
            Outcome::NoMatch
        },
        _ => Outcome::NoMatch,
    }
}

/// Reads one management target record.
pub fn parse(s: &[char], p: usize) -> (r: Parsed<Record>)
    requires
        p <= s@.len(),
    ensures
        lift_view(r) == mgs_record(s@, p as int),
        advances(lift_view(r), s@, p as int),
{
    let (t, q) = match read_prefixed_target(s, p, MGS) {
        Parsed::Match(t, q) => (t, q),
        _ => return Parsed::NoMatch,
    };
    let k = key_if(s, q, NUM_EXPORTS, TargetField::NumExports, ValueKind::Count);
    if k.is_some() {
        return read_keyed_record(s, q, TargetVariant::MGT, t, k);
    }
    if match_lit(s, q, "mgs.") {
        let a = q + "mgs.".unicode_len();
        let k = find_service_key(s, a);
        let r = read_keyed_record(s, a, TargetVariant::MGT, t, k);
        return r;
    }
    Parsed::NoMatch
}

} // verus!
