//! The dispatcher over the `lctl get_param` grammars.
use crate::base_parsers::{advances, lift, lift_view, Outcome, Parsed};
use crate::error::LustreCollectorError;
use crate::mds_parser::{self, mds_patterns, mdt_record};
use crate::mgs_parser::{self, mgs_patterns, mgs_record};
use crate::oss_parser::{self, oss_patterns, oss_record};
use crate::stats_parser::prepend;
use crate::top_level_parser::{self, top_level_patterns, top_level_record};
use crate::types::{records_view, Record, RecordView};
use crate::values::strings_view;
use vstd::prelude::*;

verus! {

/// Every query pattern that the `lctl get_param` grammars need, in the order queried.
pub open spec fn lctl_patterns() -> Seq<Seq<char>> {
    top_level_patterns() + mgs_patterns() + oss_patterns() + mds_patterns()
}

/// Every query pattern that the `lctl get_param` grammars need.
pub fn params() -> (r: Vec<String>)
    ensures
        strings_view(r@) == lctl_patterns(),
{
    let mut a = top_level_parser::top_level_params();
    let mut b = mgs_parser::params();
    let mut c = oss_parser::params();
    let mut d = mds_parser::params();
    let ghost (va, vb, vc, vd) = (a@, b@, c@, d@);
    a.append(&mut b);
    a.append(&mut c);
    a.append(&mut d);
    assert(strings_view(a@) =~= strings_view(va) + strings_view(vb) + strings_view(vc)
        + strings_view(vd));
    a
}

/// One record of `lctl get_param` output: the grammars tried in their order of priority.
pub open spec fn lctl_record(s: Seq<char>, p: int) -> Outcome<RecordView> {
    match top_level_record(s, p) {
        Outcome::NoMatch => match mgs_record(s, p) {
            Outcome::NoMatch => match mdt_record(s, p) {
                Outcome::NoMatch => oss_record(s, p),
                o => o,
            },
            o => o,
        },
        o => o,
    }
}

/// Reads one record of `lctl get_param` output.
pub fn parse_record(s: &[char], p: usize) -> (r: Parsed<Record>)
    requires
        p <= s@.len(),
    ensures
        lift_view(r) == lctl_record(s@, p as int),
        advances(lift_view(r), s@, p as int),
{
    match top_level_parser::parse(s, p) {
        Parsed::NoMatch => {},
        r => return r,
    }
    match mgs_parser::parse(s, p) {
        Parsed::NoMatch => {},
        r => return r,
    }
    match mds_parser::parse(s, p) {
        Parsed::NoMatch => {},
        r => return r,
    }
    oss_parser::parse(s, p)
}

/// As many records as follow one another from `p`.
pub open spec fn lctl_records(s: Seq<char>, p: int) -> Outcome<Seq<RecordView>>
    decreases s.len() - p,
{
    match lctl_record(s, p) {
        Outcome::Match(v, q) => if p < q <= s.len() {
            prepend(seq![v], lctl_records(s, q))
        } else {
            Outcome::Match(seq![v], q)
        },
        Outcome::NoMatch => Outcome::Match(Seq::empty(), p),
        Outcome::Overflow(x) => Outcome::Overflow(x),
    }
}

/// Reads records from `p` for as long as one of the grammars matches.
pub fn parse(s: &[char], p: usize) -> (r: Parsed<Vec<Record>>)
    requires
        p <= s@.len(),
    ensures
        lift(r, |v: Vec<Record>| records_view(v@)) == lctl_records(s@, p as int),
        match r {
            Parsed::Match(_, q) => p <= q <= s@.len(),
            Parsed::Overflow(x) => p <= x <= s@.len(),
            Parsed::NoMatch => false,
        },
{
    let mut out: Vec<Record> = Vec::new();
    let mut q = p;
    loop
        invariant
            p <= q <= s@.len(),
            lctl_records(s@, p as int) == prepend(records_view(out@), lctl_records(s@, q as int)),
        decreases s@.len() - q,
    {
        let ghost before = out@;
        match parse_record(s, q) {
            Parsed::Match(v, r) => {
                out.push(v);
                proof {
                    assert(records_view(out@) =~= records_view(before) + seq![v@]);
                    let rest = lctl_records(s@, r as int);
                    match rest {
                        Outcome::Match(vs, _) => {
                            assert(records_view(before) + (seq![v@] + vs) =~= records_view(out@)
                                + vs);
                        },
                        _ => {},
                    }
                }
                q = r;
            },
            Parsed::NoMatch => {
                proof {
                    assert(records_view(out@) + Seq::<RecordView>::empty() =~= records_view(out@));
                }
                return Parsed::Match(out, q);
            },
            Parsed::Overflow(x) => {
                return Parsed::Overflow(x);
            },
        }
    }
}

/// What a whole input yields: the records, when the grammars read all of it.
pub open spec fn whole_input(o: Outcome<Seq<RecordView>>, len: int) -> Result<
    Seq<RecordView>,
    LustreCollectorError,
> {
    match o {
        Outcome::Match(vs, q) => if q == len {
            Ok(vs)
        } else {
            Err(LustreCollectorError::ContentLeft { position: q as usize })
        },
        Outcome::Overflow(x) => Err(LustreCollectorError::NumberOverflow { position: x as usize }),
        Outcome::NoMatch => Err(LustreCollectorError::ContentLeft { position: 0 }),
    }
}

pub open spec fn result_view(r: Result<Vec<Record>, LustreCollectorError>) -> Result<
    Seq<RecordView>,
    LustreCollectorError,
> {
    match r {
        Ok(v) => Ok(records_view(v@)),
        Err(e) => Err(e),
    }
}

/// Accepts the records only where the grammars read the whole input.
pub fn check_output(r: Parsed<Vec<Record>>, len: usize) -> (out: Result<
    Vec<Record>,
    LustreCollectorError,
>)
    ensures
        result_view(out) == whole_input(lift(r, |v: Vec<Record>| records_view(v@)), len as int),
{
    match r {
        Parsed::Match(v, q) => if q == len {
            Ok(v)
        } else {
            Err(LustreCollectorError::ContentLeft { position: q })
        },
        Parsed::Overflow(x) => Err(LustreCollectorError::NumberOverflow { position: x }),
        Parsed::NoMatch => Err(LustreCollectorError::ContentLeft { position: 0 }),
    }
}

} // verus!
