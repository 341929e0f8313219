//! The generic statistics table: a timestamp header and one or more lines of the form
//! `name <count> samples [unit] [min max sum [sumsquare]]`.
use crate::base_parsers::{
    advances, char_at, digits, is_char_at, lift, lift_view, read_digits, run, spaces,
    till_newline, word, CharClass, Outcome, Parsed,
};
use crate::text::{lit_at, match_lit, string_of};
use crate::types::{stats_view, Stat, StatView};
use vstd::prelude::*;

verus! {

/// One line of the timestamp header, `name[:] <secs>.<nsecs> ...`, and its line feed; its
/// value is the seconds and the nanoseconds.
pub open spec fn time_line(s: Seq<char>, p: int, name: Seq<char>) -> Outcome<(u64, u64)> {
    if !lit_at(s, p, name) {
        Outcome::NoMatch
    } else {
        let a = p + name.len();
        let b = if char_at(s, a, ':') {
            a + 1
        } else {
            a
        };
        match digits(s, spaces(s, b)) {
            Outcome::Match(secs, d) => if !char_at(s, d, '.') {
                Outcome::NoMatch
            } else {
                match digits(s, d + 1) {
                    Outcome::Match(nsecs, e) => {
                        let f = till_newline(s, e);
                        if char_at(s, f, '\n') {
                            Outcome::Match((secs, nsecs), f + 1)
                        } else {
                            Outcome::NoMatch
                        }
                    },
                    Outcome::NoMatch => Outcome::NoMatch,
                    Outcome::Overflow(x) => Outcome::Overflow(x),
                }
            },
            Outcome::NoMatch => Outcome::NoMatch,
            Outcome::Overflow(x) => Outcome::Overflow(x),
        }
    }
}

pub fn read_time_line(s: &[char], p: usize, name: &str) -> (r: Parsed<(u64, u64)>)
    requires
        p <= s@.len(),
    ensures
        lift_view(r) == time_line(s@, p as int, name@),
        advances(lift_view(r), s@, p as int),
{
    if !match_lit(s, p, name) {
        return Parsed::NoMatch;
    }
    let a = p + name.unicode_len();
    let b = if is_char_at(s, a, ':') {
        a + 1
    } else {
        a
    };
    let c = run(s, b, CharClass::Space);
    match read_digits(s, c) {
        Parsed::Match(secs, d) => {
            if !is_char_at(s, d, '.') {
                return Parsed::NoMatch;
            }
            match read_digits(s, d + 1) {
                Parsed::Match(nsecs, e) => {
                    let f = run(s, e, CharClass::Line);
                    if is_char_at(s, f, '\n') {
                        Parsed::Match((secs, nsecs), f + 1)
                    } else {
                        Parsed::NoMatch
                    }
                },
                Parsed::NoMatch => Parsed::NoMatch,
                Parsed::Overflow(x) => Parsed::Overflow(x),
            }
        },
        Parsed::NoMatch => Parsed::NoMatch,
        Parsed::Overflow(x) => Parsed::Overflow(x),
    }
}

/// A header line that may be left out: where it does not match, nothing is read.
pub open spec fn optional_time_line(s: Seq<char>, p: int, name: Seq<char>) -> Outcome<()> {
    match time_line(s, p, name) {
        Outcome::Match(_, q) => Outcome::Match((), q),
        Outcome::NoMatch => Outcome::Match((), p),
        Outcome::Overflow(x) => Outcome::Overflow(x),
    }
}

/// The timestamp header: a `snapshot_time` line, then maybe `start_time` and `elapsed_time`.
pub open spec fn time_header(s: Seq<char>, p: int) -> Outcome<()> {
    match time_line(s, p, "snapshot_time"@) {
        Outcome::Match(_, a) => match optional_time_line(s, a, "start_time"@) {
            Outcome::Match(_, b) => optional_time_line(s, b, "elapsed_time"@),
            o => o,
        },
        Outcome::NoMatch => Outcome::NoMatch,
        Outcome::Overflow(x) => Outcome::Overflow(x),
    }
}

pub fn read_time_header(s: &[char], p: usize) -> (r: Parsed<()>)
    requires
        p <= s@.len(),
    ensures
        lift_view(r) == time_header(s@, p as int),
        advances(lift_view(r), s@, p as int),
{
    let a = match read_time_line(s, p, "snapshot_time") {
        Parsed::Match(_, a) => a,
        Parsed::NoMatch => return Parsed::NoMatch,
        Parsed::Overflow(x) => return Parsed::Overflow(x),
    };
    let b = match read_time_line(s, a, "start_time") {
        Parsed::Match(_, b) => b,
        Parsed::NoMatch => a,
        Parsed::Overflow(x) => return Parsed::Overflow(x),
    };
    match read_time_line(s, b, "elapsed_time") {
        Parsed::Match(_, c) => Parsed::Match((), c),
        Parsed::NoMatch => Parsed::Match((), b),
        Parsed::Overflow(x) => Parsed::Overflow(x),
    }
}

/// Words that begin a subsystem's lines, and so end a table rather than name a stat.
pub open spec fn reserved_word(w: Seq<char>) -> bool {
    w == "obdfilter"@ || w == "mgs"@ || w == "mdt"@
}

fn is_reserved_word(s: &[char], p: usize, q: usize) -> (r: bool)
    requires
        p <= q <= s@.len(),
    ensures
        r == reserved_word(s@.subrange(p as int, q as int)),
{
    let ghost w = s@.subrange(p as int, q as int);
    let r = (match_lit(s, p, "obdfilter") && q - p == "obdfilter".unicode_len()) || (match_lit(
        s,
        p,
        "mgs",
    ) && q - p == "mgs".unicode_len()) || (match_lit(s, p, "mdt") && q - p == "mdt".unicode_len());
    proof {
        assert(lit_at(s@, p as int, "obdfilter"@) && q - p == "obdfilter"@.len() <==> w
            == "obdfilter"@) by {
            if w == "obdfilter"@ {
                assert(s@.subrange(p as int, p + "obdfilter"@.len()) =~= w);
            }
        }
        assert(lit_at(s@, p as int, "mgs"@) && q - p == "mgs"@.len() <==> w == "mgs"@) by {
            if w == "mgs"@ {
                assert(s@.subrange(p as int, p + "mgs"@.len()) =~= w);
            }
        }
        assert(lit_at(s@, p as int, "mdt"@) && q - p == "mdt"@.len() <==> w == "mdt"@) by {
            if w == "mdt"@ {
                assert(s@.subrange(p as int, p + "mdt"@.len()) =~= w);
            }
        }
    }
    r
}

/// The name, sample count and unit that open a stat line.
pub open spec fn name_count_units(s: Seq<char>, p: int) -> Outcome<(Seq<char>, u64, Seq<char>)> {
    match word(s, p) {
        Outcome::Match(name, q1) => if reserved_word(name) {
            Outcome::NoMatch
        } else {
            match digits(s, spaces(s, q1)) {
                Outcome::Match(samples, q3) => {
                    let q4 = spaces(s, q3);
                    if !lit_at(s, q4, "samples"@) {
                        Outcome::NoMatch
                    } else {
                        let q6 = spaces(s, q4 + "samples"@.len());
                        if !char_at(s, q6, '[') {
                            Outcome::NoMatch
                        } else {
                            match word(s, q6 + 1) {
                                Outcome::Match(units, q7) => if char_at(s, q7, ']') {
                                    Outcome::Match((name, samples, units), q7 + 1)
                                } else {
                                    Outcome::NoMatch
                                },
                                _ => Outcome::NoMatch,
                            }
                        }
                    }
                },
                Outcome::NoMatch => Outcome::NoMatch,
                Outcome::Overflow(x) => Outcome::Overflow(x),
            }
        },
        _ => Outcome::NoMatch,
    }
}

pub fn read_name_count_units(s: &[char], p: usize) -> (r: Parsed<(String, u64, String)>)
    requires
        p <= s@.len(),
    ensures
        lift(r, |v: (String, u64, String)| (v.0@, v.1, v.2@)) == name_count_units(s@, p as int),
        advances(lift(r, |v: (String, u64, String)| (v.0@, v.1, v.2@)), s@, p as int),
{
    let q1 = run(s, p, CharClass::Word);
    if q1 == p || is_reserved_word(s, p, q1) {
        return Parsed::NoMatch;
    }
    let q2 = run(s, q1, CharClass::Space);
    let (samples, q3) = match read_digits(s, q2) {
        Parsed::Match(v, q) => (v, q),
        Parsed::NoMatch => return Parsed::NoMatch,
        Parsed::Overflow(x) => return Parsed::Overflow(x),
    };
    let q4 = run(s, q3, CharClass::Space);
    if !match_lit(s, q4, "samples") {
        return Parsed::NoMatch;
    }
    let q6 = run(s, q4 + "samples".unicode_len(), CharClass::Space);
    if !is_char_at(s, q6, '[') {
        return Parsed::NoMatch;
    }
    let q7 = run(s, q6 + 1, CharClass::Word);
    if q7 == q6 + 1 || !is_char_at(s, q7, ']') {
        return Parsed::NoMatch;
    }
    let name = string_of(s, p, q1);
    let units = string_of(s, q6 + 1, q7);
    Parsed::Match((name, samples, units), q7 + 1)
}

/// Digits after optional whitespace.
pub open spec fn spaced_digits(s: Seq<char>, p: int) -> Outcome<u64> {
    digits(s, spaces(s, p))
}

fn read_spaced_digits(s: &[char], p: usize) -> (r: Parsed<u64>)
    requires
        p <= s@.len(),
    ensures
        lift_view(r) == spaced_digits(s@, p as int),
        advances(lift_view(r), s@, p as int),
{
    let q = run(s, p, CharClass::Space);
    read_digits(s, q)
}

/// The three numbers min, max and sum.
pub open spec fn min_max_sum(s: Seq<char>, p: int) -> Outcome<(u64, u64, u64)> {
    match spaced_digits(s, p) {
        Outcome::Match(a, q1) => match spaced_digits(s, q1) {
            Outcome::Match(b, q2) => match spaced_digits(s, q2) {
                Outcome::Match(c, q3) => Outcome::Match((a, b, c), q3),
                Outcome::NoMatch => Outcome::NoMatch,
                Outcome::Overflow(x) => Outcome::Overflow(x),
            },
            Outcome::NoMatch => Outcome::NoMatch,
            Outcome::Overflow(x) => Outcome::Overflow(x),
        },
        Outcome::NoMatch => Outcome::NoMatch,
        Outcome::Overflow(x) => Outcome::Overflow(x),
    }
}

fn read_min_max_sum(s: &[char], p: usize) -> (r: Parsed<(u64, u64, u64)>)
    requires
        p <= s@.len(),
    ensures
        lift_view(r) == min_max_sum(s@, p as int),
        advances(lift_view(r), s@, p as int),
{
    let (a, q1) = match read_spaced_digits(s, p) {
        Parsed::Match(v, q) => (v, q),
        Parsed::NoMatch => return Parsed::NoMatch,
        Parsed::Overflow(x) => return Parsed::Overflow(x),
    };
    let (b, q2) = match read_spaced_digits(s, q1) {
        Parsed::Match(v, q) => (v, q),
        Parsed::NoMatch => return Parsed::NoMatch,
        Parsed::Overflow(x) => return Parsed::Overflow(x),
    };
    match read_spaced_digits(s, q2) {
        Parsed::Match(c, q3) => Parsed::Match((a, b, c), q3),
        Parsed::NoMatch => Parsed::NoMatch,
        Parsed::Overflow(x) => Parsed::Overflow(x),
    }
}

pub open spec fn stat_view_of(
    h: (Seq<char>, u64, Seq<char>),
    moments: Option<(u64, u64, u64)>,
    sumsquare: Option<u64>,
) -> StatView {
    StatView {
        name: h.0,
        units: h.2,
        samples: h.1,
        min: match moments {
            Some(m) => Some(m.0),
            None => None,
        },
        max: match moments {
            Some(m) => Some(m.1),
            None => None,
        },
        sum: match moments {
            Some(m) => Some(m.2),
            None => None,
        },
        sumsquare,
    }
}

/// One line of a statistics table, with its line feed.
pub open spec fn stat_line(s: Seq<char>, p: int) -> Outcome<StatView> {
    match name_count_units(s, p) {
        Outcome::Match(h, q) => if char_at(s, q, '\n') {
            Outcome::Match(stat_view_of(h, None, None), q + 1)
        } else {
            match min_max_sum(s, q) {
                Outcome::Match(m, q2) => if char_at(s, q2, '\n') {
                    Outcome::Match(stat_view_of(h, Some(m), None), q2 + 1)
                } else {
                    match spaced_digits(s, q2) {
                        Outcome::Match(sq, q3) => if char_at(s, q3, '\n') {
                            Outcome::Match(stat_view_of(h, Some(m), Some(sq)), q3 + 1)
                        } else {
                            Outcome::NoMatch
                        },
                        Outcome::NoMatch => Outcome::NoMatch,
                        Outcome::Overflow(x) => Outcome::Overflow(x),
                    }
                },
                Outcome::NoMatch => Outcome::NoMatch,
                Outcome::Overflow(x) => Outcome::Overflow(x),
            }
        },
        Outcome::NoMatch => Outcome::NoMatch,
        Outcome::Overflow(x) => Outcome::Overflow(x),
    }
}

pub fn read_stat_line(s: &[char], p: usize) -> (r: Parsed<Stat>)
    requires
        p <= s@.len(),
    ensures
        lift_view(r) == stat_line(s@, p as int),
        advances(lift_view(r), s@, p as int),
{
    let ((name, samples, units), q) = match read_name_count_units(s, p) {
        Parsed::Match(h, q) => (h, q),
        Parsed::NoMatch => return Parsed::NoMatch,
        Parsed::Overflow(x) => return Parsed::Overflow(x),
    };
    if is_char_at(s, q, '\n') {
        return Parsed::Match(
            Stat { name, units, samples, min: None, max: None, sum: None, sumsquare: None },
            q + 1,
        );
    }
    let ((min, max, sum), q2) = match read_min_max_sum(s, q) {
        Parsed::Match(m, q2) => (m, q2),
        Parsed::NoMatch => return Parsed::NoMatch,
        Parsed::Overflow(x) => return Parsed::Overflow(x),
    };
    if is_char_at(s, q2, '\n') {
        return Parsed::Match(
            Stat {
                name,
                units,
                samples,
                min: Some(min),
                max: Some(max),
                sum: Some(sum),
                sumsquare: None,
            },
            q2 + 1,
        );
    }
    match read_spaced_digits(s, q2) {
        Parsed::Match(sq, q3) => if is_char_at(s, q3, '\n') {
            Parsed::Match(
                Stat {
                    name,
                    units,
                    samples,
                    min: Some(min),
                    max: Some(max),
                    sum: Some(sum),
                    sumsquare: Some(sq),
                },
                q3 + 1,
            )
        } else {
            Parsed::NoMatch
        },
        Parsed::NoMatch => Parsed::NoMatch,
        Parsed::Overflow(x) => Parsed::Overflow(x),
    }
}

/// Puts `prefix` in front of what a repetition read.
pub open spec fn prepend<V>(prefix: Seq<V>, o: Outcome<Seq<V>>) -> Outcome<Seq<V>> {
    match o {
        Outcome::Match(vs, q) => Outcome::Match(prefix + vs, q),
        Outcome::NoMatch => Outcome::NoMatch,
        Outcome::Overflow(x) => Outcome::Overflow(x),
    }
}

/// As many stat lines as follow one another from `p`, possibly none.
pub open spec fn stat_lines(s: Seq<char>, p: int) -> Outcome<Seq<StatView>>
    decreases s.len() - p,
{
    match stat_line(s, p) {
        Outcome::Match(v, q) => if p < q <= s.len() {
            prepend(seq![v], stat_lines(s, q))
        } else {
            Outcome::Match(seq![v], q)
        },
        Outcome::NoMatch => Outcome::Match(Seq::empty(), p),
        Outcome::Overflow(x) => Outcome::Overflow(x),
    }
}

fn read_stat_lines(s: &[char], p: usize) -> (r: Parsed<Vec<Stat>>)
    requires
        p <= s@.len(),
    ensures
        lift(r, |v: Vec<Stat>| stats_view(v@)) == stat_lines(s@, p as int),
        match r {
            Parsed::Match(_, q) => p <= q <= s@.len(),
            Parsed::Overflow(x) => p <= x <= s@.len(),
            Parsed::NoMatch => false,
        },
{
    let mut out: Vec<Stat> = Vec::new();
    let mut q = p;
    loop
        invariant
            p <= q <= s@.len(),
            stat_lines(s@, p as int) == prepend(stats_view(out@), stat_lines(s@, q as int)),
        decreases s@.len() - q,
    {
        let ghost before = out@;
        match read_stat_line(s, q) {
            Parsed::Match(v, r) => {
                out.push(v);
                proof {
                    assert(stats_view(out@) =~= stats_view(before) + seq![v@]);
                    let rest = stat_lines(s@, r as int);
                    match rest {
                        Outcome::Match(vs, _) => {
                            assert(stats_view(before) + (seq![v@] + vs) =~= stats_view(out@)
                                + vs);
                        },
                        _ => {},
                    }
                }
                q = r;
            },
            Parsed::NoMatch => {
                proof {
                    assert(stats_view(out@) + Seq::<StatView>::empty() =~= stats_view(out@));
                }
                return Parsed::Match(out, q);
            },
            Parsed::Overflow(x) => {
                return Parsed::Overflow(x);
            },
        }
    }
}

/// A statistics table as it follows a `name=` key: a line feed, the timestamp header and
/// at least one stat line.
pub open spec fn stats_table(s: Seq<char>, p: int) -> Outcome<Seq<StatView>> {
    if !char_at(s, p, '\n') {
        Outcome::NoMatch
    } else {
        match time_header(s, p + 1) {
            Outcome::Match(_, q) => match stat_lines(s, q) {
                Outcome::Match(vs, r) => if vs.len() == 0 {
                    Outcome::NoMatch
                } else {
                    Outcome::Match(vs, r)
                },
                o => o,
            },
            Outcome::NoMatch => Outcome::NoMatch,
            Outcome::Overflow(x) => Outcome::Overflow(x),
        }
    }
}

/// Reads a statistics table.
pub fn stats(s: &[char], p: usize) -> (r: Parsed<Vec<Stat>>)
    requires
        p <= s@.len(),
    ensures
        lift(r, |v: Vec<Stat>| stats_view(v@)) == stats_table(s@, p as int),
        advances(lift(r, |v: Vec<Stat>| stats_view(v@)), s@, p as int),
{
    if !is_char_at(s, p, '\n') {
        return Parsed::NoMatch;
    }
    let q = match read_time_header(s, p + 1) {
        Parsed::Match(_, q) => q,
        Parsed::NoMatch => return Parsed::NoMatch,
        Parsed::Overflow(x) => return Parsed::Overflow(x),
    };
    match read_stat_lines(s, q) {
        Parsed::Match(v, r) => if v.len() == 0 {
            Parsed::NoMatch
        } else {
            Parsed::Match(v, r)
        },
        Parsed::NoMatch => Parsed::NoMatch,
        Parsed::Overflow(x) => Parsed::Overflow(x),
    }
}

} // verus!
