//! Host-level parameters: `memused=`, `memused_max=`, `lnet_memused=` and `health_check=`.
use crate::base_parsers::{advances, key_at, lift_view, match_key, Outcome, Parsed};
use crate::types::{HostField, HostStat, HostStats, Param, Record, RecordView};
use crate::values::{
    host_count_record, host_record_view, param_value, read_value, strings_view, Value,
    ValueKind,
};
use vstd::pervasive::unreached;
use vstd::prelude::*;

verus! {

pub const MEMUSED_MAX: &'static str = "memused_max";

pub const MEMUSED: &'static str = "memused";

pub const LNET_MEMUSED: &'static str = "lnet_memused";

pub const HEALTH_CHECK: &'static str = "health_check";

/// The host-level parameters, in the order they are queried.
pub open spec fn top_level_patterns() -> Seq<Seq<char>> {
    seq![MEMUSED@, MEMUSED_MAX@, LNET_MEMUSED@, HEALTH_CHECK@]
}

/// The query patterns for the host-level parameters.
pub fn top_level_params() -> (r: Vec<String>)
    ensures
        strings_view(r@) == top_level_patterns(),
{
    let mut v: Vec<String> = Vec::new();
    v.push(String::from_str(MEMUSED));
    v.push(String::from_str(MEMUSED_MAX));
    v.push(String::from_str(LNET_MEMUSED));
    v.push(String::from_str(HEALTH_CHECK));
    assert(strings_view(v@) =~= seq![MEMUSED@, MEMUSED_MAX@, LNET_MEMUSED@, HEALTH_CHECK@]);
    v
}

/// The host-level key that stands at `p`.
pub open spec fn host_key(s: Seq<char>, p: int) -> Option<(HostField, Seq<char>, ValueKind)> {
    if key_at(s, p, MEMUSED@) {
        Some((HostField::Memused, MEMUSED@, ValueKind::Count))
    } else if key_at(s, p, MEMUSED_MAX@) {
        Some((HostField::MemusedMax, MEMUSED_MAX@, ValueKind::Count))
    } else if key_at(s, p, LNET_MEMUSED@) {
        Some((HostField::LNetMemUsed, LNET_MEMUSED@, ValueKind::Count))
    } else if key_at(s, p, HEALTH_CHECK@) {
        Some((HostField::HealthCheck, HEALTH_CHECK@, ValueKind::Words))
    } else {
        None
    }
}

/// One host-level record.
pub open spec fn top_level_record(s: Seq<char>, p: int) -> Outcome<RecordView> {
    match host_key(s, p) {
        Some((f, n, k)) => match param_value(s, p + n.len() + 1, k) {
            Outcome::Match(v, q) => Outcome::Match(host_record_view(f, n, v), q),
            Outcome::NoMatch => Outcome::NoMatch,
            Outcome::Overflow(x) => Outcome::Overflow(x),
        },
        None => Outcome::NoMatch,
    }
}

fn find_host_key(s: &[char], p: usize) -> (r: Option<(HostField, &'static str, ValueKind)>)
    requires
        p <= s@.len(),
    ensures
        match r {
            Some((f, n, k)) => host_key(s@, p as int) == Some((f, n@, k)) && p + n@.len() + 1
                <= s.len() && (f == HostField::HealthCheck <==> k == ValueKind::Words) && (k
                == ValueKind::Words || k == ValueKind::Count),
            None => host_key(s@, p as int) is None,
        },
{
    if match_key(s, p, MEMUSED) {
        Some((HostField::Memused, MEMUSED, ValueKind::Count))
    } else if match_key(s, p, MEMUSED_MAX) {
        Some((HostField::MemusedMax, MEMUSED_MAX, ValueKind::Count))
    } else if match_key(s, p, LNET_MEMUSED) {
        Some((HostField::LNetMemUsed, LNET_MEMUSED, ValueKind::Count))
    } else if match_key(s, p, HEALTH_CHECK) {
        Some((HostField::HealthCheck, HEALTH_CHECK, ValueKind::Words))
    } else {
        None
    }
}

/// Reads one host-level record.
pub fn parse(s: &[char], p: usize) -> (r: Parsed<Record>)
    requires
        p <= s@.len(),
    ensures
        lift_view(r) == top_level_record(s@, p as int),
        advances(lift_view(r), s@, p as int),
{
    let (field, name, kind) = match find_host_key(s, p) {
        Some(k) => k,
        None => return Parsed::NoMatch,
    };
    match read_value(s, p + name.unicode_len() + 1, kind) {
        Parsed::Match(v, q) => {
            let param = Param(String::from_str(name));
            let record = match v {
                Value::Count(n) => host_count_record(field, param, n),
                Value::Text(t) => Record::Host(HostStats::HealthCheck(HostStat { param, value: t })),
                _ => unreached(),
            };
            Parsed::Match(record, q)
        },
        Parsed::NoMatch => Parsed::NoMatch,
        Parsed::Overflow(x) => Parsed::Overflow(x),
    }
}

} // verus!
