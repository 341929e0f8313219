//! Object storage service statistics: `ost.OSS.<service>.stats=` and a statistics table.
use crate::base_parsers::{advances, char_at, key_at, lift_view, match_key, Outcome, Parsed};
use crate::stats_parser::{stats, stats_table};
use crate::text::{lit_at, match_lit};
use crate::types::{Param, Record, RecordView, TargetField, TargetVariant, ValueView};
use crate::values::{
    pattern3, prefixed_target, read_prefixed_target, strings_view, target_record,
    target_record_view, Value, ValueKind,
};
use vstd::prelude::*;

verus! {

pub const OST: &'static str = "ost";

pub const OST_IO: &'static str = "ost_io";

pub const OST_CREATE: &'static str = "ost_create";

pub const OST_OUT: &'static str = "ost_out";

pub const OST_SEQ: &'static str = "ost_seq";

/// The services whose statistics are read, in the order they are queried.
pub open spec fn ost_stats() -> Seq<Seq<char>> {
    seq![OST@, OST_IO@, OST_CREATE@, OST_OUT@, OST_SEQ@]
}

/// The query patterns for the object storage services.
pub fn params() -> (r: Vec<String>)
    ensures
        strings_view(r@) == ost_stats().map_values(
            |n: Seq<char>| "ost.OSS."@ + n + ".stats"@,
        ),
{
    let mut v: Vec<String> = Vec::new();
    v.push(pattern3("ost.OSS.", OST, ".stats"));
    v.push(pattern3("ost.OSS.", OST_IO, ".stats"));
    v.push(pattern3("ost.OSS.", OST_CREATE, ".stats"));
    v.push(pattern3("ost.OSS.", OST_OUT, ".stats"));
    v.push(pattern3("ost.OSS.", OST_SEQ, ".stats"));
    assert(strings_view(v@) =~= ost_stats().map_values(
        |n: Seq<char>| "ost.OSS."@ + n + ".stats"@,
    ));
    v
}

/// `name.` at `q`: a service name that ends with a `.` rather than a `=`.
pub open spec fn service_at(s: Seq<char>, q: int, name: Seq<char>) -> bool {
    lit_at(s, q, name) && char_at(s, q + name.len(), '.')
}

/// The service named at `q`.
pub open spec fn ost_service(s: Seq<char>, q: int) -> Option<Seq<char>> {
    if service_at(s, q, OST@) {
        Some(OST@)
    } else if service_at(s, q, OST_IO@) {
        Some(OST_IO@)
    } else if service_at(s, q, OST_CREATE@) {
        Some(OST_CREATE@)
    } else if service_at(s, q, OST_OUT@) {
        Some(OST_OUT@)
    } else if service_at(s, q, OST_SEQ@) {
        Some(OST_SEQ@)
    } else {
        None
    }
}

fn service_if(s: &[char], q: usize, name: &'static str) -> (r: Option<&'static str>)
    requires
        q <= s@.len(),
    ensures
        r is Some <==> service_at(s@, q as int, name@),
        r is Some ==> r->0@ == name@ && q + name@.len() < s.len(),
{
    if match_lit(s, q, name) && name.unicode_len() < s.len() - q && s[q + name.unicode_len()]
        == '.' {
        Some(name)
    } else {
        None
    }
}

fn find_service(s: &[char], q: usize) -> (r: Option<&'static str>)
    requires
        q <= s@.len(),
    ensures
        match r {
            Some(n) => ost_service(s@, q as int) == Some(n@) && q + n@.len() < s.len(),
            None => ost_service(s@, q as int) is None,
        },
{
    let r = service_if(s, q, OST);
    if r.is_some() {
        return r;
    }
    let r = service_if(s, q, OST_IO);
    if r.is_some() {
        return r;
    }
    let r = service_if(s, q, OST_CREATE);
    if r.is_some() {
        return r;
    }
    let r = service_if(s, q, OST_OUT);
    if r.is_some() {
        return r;
    }
    service_if(s, q, OST_SEQ)
}

/// One object storage service record: its statistics table, named after the service.
pub open spec fn ost_record(s: Seq<char>, p: int) -> Outcome<RecordView> {
    match prefixed_target(s, p, OST@) {
        Outcome::Match(t, q) => match ost_service(s, q) {
            Some(n) => {
                let a = q + n.len() + 1;
                if key_at(s, a, "stats"@) {
                    match stats_table(s, a + "stats"@.len() + 1) {
                        Outcome::Match(v, r) => Outcome::Match(
                            target_record_view(
                                TargetField::Stats,
                                TargetVariant::OST,
                                t,
                                n,
                                ValueView::Table(v),
                            ),
                            r,
                        ),
                        Outcome::NoMatch => Outcome::NoMatch,
                        Outcome::Overflow(x) => Outcome::Overflow(x),
                    }
                } else {
                    Outcome::NoMatch
                }
            },
            None => Outcome::NoMatch,
        },
        _ => Outcome::NoMatch,
    }
}

/// Reads one object storage service record.
pub fn parse(s: &[char], p: usize) -> (r: Parsed<Record>)
    requires
        p <= s@.len(),
    ensures
        lift_view(r) == ost_record(s@, p as int),
        advances(lift_view(r), s@, p as int),
{
    let (t, q) = match read_prefixed_target(s, p, OST) {
        Parsed::Match(t, q) => (t, q),
        _ => return Parsed::NoMatch,
    };
    let n = match find_service(s, q) {
        Some(n) => n,
        None => return Parsed::NoMatch,
    };
    let a = q + n.unicode_len() + 1;
    if !match_key(s, a, "stats") {
        return Parsed::NoMatch;
    }
    match stats(s, a + "stats".unicode_len() + 1) {
        Parsed::Match(v, r) => {
            let param = Param(String::from_str(n));
            Parsed::Match(
                target_record(
                    TargetField::Stats,
                    TargetVariant::OST,
                    t,
                    param,
                    Value::Table(v),
                    ValueKind::Table,
                ),
                r,
            )
        },
        Parsed::NoMatch => Parsed::NoMatch,
        Parsed::Overflow(x) => Parsed::Overflow(x),
    }
}

} // verus!
