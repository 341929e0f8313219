//! Object storage server parameters: targets, lock namespaces and services.
use crate::base_parsers::{advances, lift_view, Outcome, Parsed};
use crate::ldlm_parser::{self, ldlm_pattern_prefix, ldlm_record, ldlm_stats};
use crate::obdfilter_parser::{self, obd_pattern_prefix, obd_stats, obdfilter_record};
use crate::ost_parser::{self, ost_record, ost_stats};
use crate::types::{Record, RecordView};
use crate::values::strings_view;
use vstd::prelude::*;

verus! {

/// The query patterns of the object storage server, in the order they are queried.
pub open spec fn oss_patterns() -> Seq<Seq<char>> {
    obd_stats().map_values(|n: Seq<char>| obd_pattern_prefix() + n) + ldlm_stats().map_values(
        |n: Seq<char>| ldlm_pattern_prefix() + n,
    ) + ost_stats().map_values(|n: Seq<char>| "ost.OSS."@ + n + ".stats"@)
}

/// The query patterns of the object storage server.
pub fn params() -> (r: Vec<String>)
    ensures
        strings_view(r@) == oss_patterns(),
{
    let mut a = obdfilter_parser::obd_params();
    let mut b = ldlm_parser::ldlm_params();
    let mut c = ost_parser::params();
    let ghost (va, vb, vc) = (a@, b@, c@);
    a.append(&mut b);
    a.append(&mut c);
    assert(strings_view(a@) =~= strings_view(va) + strings_view(vb) + strings_view(vc));
    a
}

/// One object storage server record: a target parameter, a lock namespace parameter or a
/// service's statistics, tried in that order.
pub open spec fn oss_record(s: Seq<char>, p: int) -> Outcome<RecordView> {
    match obdfilter_record(s, p) {
        Outcome::NoMatch => match ldlm_record(s, p) {
            Outcome::NoMatch => ost_record(s, p),
            o => o,
        },
        o => o,
    }
}

/// Reads one object storage server record.
pub fn parse(s: &[char], p: usize) -> (r: Parsed<Record>)
    requires
        p <= s@.len(),
    ensures
        lift_view(r) == oss_record(s@, p as int),
        advances(lift_view(r), s@, p as int),
{
    match obdfilter_parser::parse(s, p) {
        Parsed::NoMatch => {},
        r => return r,
    }
    match ldlm_parser::parse(s, p) {
        Parsed::NoMatch => {},
        r => return r,
    }
    ost_parser::parse(s, p)
}

} // verus!
