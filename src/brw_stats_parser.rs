//! The bucketed read/write histograms: a timestamp header, then sections made of a
//! `read | write` column line, a named header line and bucket lines.
use crate::base_parsers::{
    advances, char_at, digits, is_char_at, lift, lift_view, read_digits, run, spaces,
    till_newline, word, CharClass, Outcome, Parsed,
};
use crate::stats_parser::{
    prepend, read_time_header, spaced_digits, time_header,
};
use crate::text::{lit_at, match_lit, string_of};
use crate::types::{histograms_view, BrwStats, BrwStatsBucket, BrwStatsView};
use vstd::prelude::*;

verus! {

/// The suffixes a bucket key may carry.
pub open spec fn is_size_suffix(c: char) -> bool {
    c == 'K' || c == 'k' || c == 'M' || c == 'm' || c == 'G' || c == 'g'
}

/// What a bucket key suffix multiplies the key by.
pub open spec fn suffix_multiplier(suffix: Option<char>) -> nat {
    match suffix {
        Some(c) => if c == 'K' || c == 'k' {
            1024
        } else if c == 'M' || c == 'm' {
            1048576
        } else if c == 'G' || c == 'g' {
            1073741824
        } else {
            1
        },
        None => 1,
    }
}

pub open spec fn known_suffix(suffix: Option<char>) -> bool {
    match suffix {
        Some(c) => is_size_suffix(c),
        None => true,
    }
}

/// Expands a bucket key with an optional size suffix to its value in bytes:
/// `K` is 2^10, `M` 2^20 and `G` 2^30, in either case.
pub fn human_to_bytes(key: (u64, Option<char>)) -> (r: u64)
    requires
        known_suffix(key.1),
        key.0 * suffix_multiplier(key.1) <= u64::MAX,
    ensures
        r == key.0 * suffix_multiplier(key.1),
        key.1 == Some('K') || key.1 == Some('k') ==> r == key.0 * 1024,
        key.1 == Some('M') || key.1 == Some('m') ==> r == key.0 * 1048576,
        key.1 == Some('G') || key.1 == Some('g') ==> r == key.0 * 1073741824,
        key.1 is None ==> r == key.0,
{
    let (x, y) = key;
    let mult: u64 = match y {
        None => 1,
        Some(c) => if c == 'K' || c == 'k' {
            1024
        } else if c == 'M' || c == 'm' {
            1048576
        } else {
            1073741824
        },
    };
    x * mult
}

/// A bucket key: digits and an optional size suffix, expanded.
pub open spec fn bucket_key(s: Seq<char>, p: int) -> Outcome<u64> {
    match digits(s, p) {
        Outcome::Match(n, q) => {
            let suffix = if 0 <= q < s.len() && is_size_suffix(s[q]) {
                Some(s[q])
            } else {
                None
            };
            let q2 = if suffix is Some {
                q + 1
            } else {
                q
            };
            if n * suffix_multiplier(suffix) > u64::MAX {
                Outcome::Overflow(p)
            } else {
                Outcome::Match((n * suffix_multiplier(suffix)) as u64, q2)
            }
        },
        Outcome::NoMatch => Outcome::NoMatch,
        Outcome::Overflow(x) => Outcome::Overflow(x),
    }
}

fn read_bucket_key(s: &[char], p: usize) -> (r: Parsed<u64>)
    requires
        p <= s@.len(),
    ensures
        lift_view(r) == bucket_key(s@, p as int),
        advances(lift_view(r), s@, p as int),
{
    match read_digits(s, p) {
        Parsed::Match(n, q) => {
            let suffix = if q < s.len() && (s[q] == 'K' || s[q] == 'k' || s[q] == 'M' || s[q]
                == 'm' || s[q] == 'G' || s[q] == 'g') {
                Some(s[q])
            } else {
                None
            };
            let q2 = if suffix.is_some() {
                q + 1
            } else {
                q
            };
            let limit: u64 = match suffix {
                None => 18446744073709551615,
                Some(c) => if c == 'K' || c == 'k' {
                    18014398509481983
                } else if c == 'M' || c == 'm' {
                    17592186044415
                } else {
                    17179869183
                },
            };
            if n > limit {
                assert(n * suffix_multiplier(suffix) > u64::MAX) by (nonlinear_arith)
                    requires
                        n > limit,
                        suffix_multiplier(suffix) == 1 ==> limit == 18446744073709551615,
                        suffix_multiplier(suffix) == 1024 ==> limit == 18014398509481983,
                        suffix_multiplier(suffix) == 1048576 ==> limit == 17592186044415,
                        suffix_multiplier(suffix) == 1073741824 ==> limit == 17179869183,
                        suffix_multiplier(suffix) == 1 || suffix_multiplier(suffix) == 1024
                            || suffix_multiplier(suffix) == 1048576 || suffix_multiplier(suffix)
                            == 1073741824,
                ;
                return Parsed::Overflow(p);
            }
            assert(n * suffix_multiplier(suffix) <= u64::MAX) by (nonlinear_arith)
                requires
                    n <= limit,
                    suffix_multiplier(suffix) == 1 ==> limit == 18446744073709551615,
                    suffix_multiplier(suffix) == 1024 ==> limit == 18014398509481983,
                    suffix_multiplier(suffix) == 1048576 ==> limit == 17592186044415,
                    suffix_multiplier(suffix) == 1073741824 ==> limit == 17179869183,
                    suffix_multiplier(suffix) == 1 || suffix_multiplier(suffix) == 1024
                        || suffix_multiplier(suffix) == 1048576 || suffix_multiplier(suffix)
                        == 1073741824,
            ;
            Parsed::Match(human_to_bytes((n, suffix)), q2)
        },
        Parsed::NoMatch => Parsed::NoMatch,
        Parsed::Overflow(x) => Parsed::Overflow(x),
    }
}

/// Three numbers after optional whitespace each; the first is kept.
pub open spec fn count_and_percents(s: Seq<char>, p: int) -> Outcome<u64> {
    match spaced_digits(s, p) {
        Outcome::Match(count, q1) => match spaced_digits(s, q1) {
            Outcome::Match(_, q2) => match spaced_digits(s, q2) {
                Outcome::Match(_, q3) => Outcome::Match(count, q3),
                Outcome::NoMatch => Outcome::NoMatch,
                Outcome::Overflow(x) => Outcome::Overflow(x),
            },
            Outcome::NoMatch => Outcome::NoMatch,
            Outcome::Overflow(x) => Outcome::Overflow(x),
        },
        Outcome::NoMatch => Outcome::NoMatch,
        Outcome::Overflow(x) => Outcome::Overflow(x),
    }
}

fn read_spaced(s: &[char], p: usize) -> (r: Parsed<u64>)
    requires
        p <= s@.len(),
    ensures
        lift_view(r) == spaced_digits(s@, p as int),
        advances(lift_view(r), s@, p as int),
{
    let q = run(s, p, CharClass::Space);
    read_digits(s, q)
}

fn read_count_and_percents(s: &[char], p: usize) -> (r: Parsed<u64>)
    requires
        p <= s@.len(),
    ensures
        lift_view(r) == count_and_percents(s@, p as int),
        advances(lift_view(r), s@, p as int),
{
    let (count, q1) = match read_spaced(s, p) {
        Parsed::Match(v, q) => (v, q),
        Parsed::NoMatch => return Parsed::NoMatch,
        Parsed::Overflow(x) => return Parsed::Overflow(x),
    };
    let q2 = match read_spaced(s, q1) {
        Parsed::Match(_, q) => q,
        Parsed::NoMatch => return Parsed::NoMatch,
        Parsed::Overflow(x) => return Parsed::Overflow(x),
    };
    match read_spaced(s, q2) {
        Parsed::Match(_, q3) => Parsed::Match(count, q3),
        Parsed::NoMatch => Parsed::NoMatch,
        Parsed::Overflow(x) => Parsed::Overflow(x),
    }
}

/// A bucket line up to its line feed:
/// `<key>[suffix]: <count> <pct> <cum> | <count> <pct> <cum>`.
pub open spec fn bucket(s: Seq<char>, p: int) -> Outcome<BrwStatsBucket> {
    match bucket_key(s, p) {
        Outcome::Match(name, q1) => if !char_at(s, q1, ':') {
            Outcome::NoMatch
        } else {
            match count_and_percents(s, q1 + 1) {
                Outcome::Match(read, q2) => {
                    let q3 = spaces(s, q2);
                    if !char_at(s, q3, '|') {
                        Outcome::NoMatch
                    } else {
                        match count_and_percents(s, q3 + 1) {
                            Outcome::Match(write, q4) => Outcome::Match(
                                BrwStatsBucket { name, read, write },
                                till_newline(s, q4),
                            ),
                            Outcome::NoMatch => Outcome::NoMatch,
                            Outcome::Overflow(x) => Outcome::Overflow(x),
                        }
                    }
                },
                Outcome::NoMatch => Outcome::NoMatch,
                Outcome::Overflow(x) => Outcome::Overflow(x),
            }
        },
        Outcome::NoMatch => Outcome::NoMatch,
        Outcome::Overflow(x) => Outcome::Overflow(x),
    }
}

/// Reads one bucket line, up to its line feed.
pub fn read_bucket(s: &[char], p: usize) -> (r: Parsed<BrwStatsBucket>)
    requires
        p <= s@.len(),
    ensures
        lift_view(r) == bucket(s@, p as int),
        advances(lift_view(r), s@, p as int),
{
    let (name, q1) = match read_bucket_key(s, p) {
        Parsed::Match(v, q) => (v, q),
        Parsed::NoMatch => return Parsed::NoMatch,
        Parsed::Overflow(x) => return Parsed::Overflow(x),
    };
    if !is_char_at(s, q1, ':') {
        return Parsed::NoMatch;
    }
    let (read, q2) = match read_count_and_percents(s, q1 + 1) {
        Parsed::Match(v, q) => (v, q),
        Parsed::NoMatch => return Parsed::NoMatch,
        Parsed::Overflow(x) => return Parsed::Overflow(x),
    };
    let q3 = run(s, q2, CharClass::Space);
    if !is_char_at(s, q3, '|') {
        return Parsed::NoMatch;
    }
    match read_count_and_percents(s, q3 + 1) {
        Parsed::Match(write, q4) => {
            let q5 = run(s, q4, CharClass::Line);
            Parsed::Match(BrwStatsBucket { name, read, write }, q5)
        },
        Parsed::NoMatch => Parsed::NoMatch,
        Parsed::Overflow(x) => Parsed::Overflow(x),
    }
}

/// Bucket lines, each with its line feed, as many as follow one another.
pub open spec fn bucket_lines(s: Seq<char>, p: int) -> Outcome<Seq<BrwStatsBucket>>
    decreases s.len() - p,
{
    match bucket(s, p) {
        Outcome::Match(b, q) => if char_at(s, q, '\n') && p < q + 1 <= s.len() {
            prepend(seq![b], bucket_lines(s, q + 1))
        } else {
            Outcome::Match(Seq::empty(), p)
        },
        Outcome::NoMatch => Outcome::Match(Seq::empty(), p),
        Outcome::Overflow(x) => Outcome::Overflow(x),
    }
}

fn read_bucket_lines(s: &[char], p: usize) -> (r: Parsed<Vec<BrwStatsBucket>>)
    requires
        p <= s@.len(),
    ensures
        lift_view(r) == bucket_lines(s@, p as int),
        match r {
            Parsed::Match(_, q) => p <= q <= s@.len(),
            Parsed::Overflow(x) => p <= x <= s@.len(),
            Parsed::NoMatch => false,
        },
{
    let mut out: Vec<BrwStatsBucket> = Vec::new();
    let mut q = p;
    loop
        invariant
            p <= q <= s@.len(),
            bucket_lines(s@, p as int) == prepend(out@, bucket_lines(s@, q as int)),
        decreases s@.len() - q,
    {
        let ghost before = out@;
        match read_bucket(s, q) {
            Parsed::Match(b, r) => {
                if !is_char_at(s, r, '\n') {
                    proof {
                        assert(out@ + Seq::<BrwStatsBucket>::empty() =~= out@);
                    }
                    return Parsed::Match(out, q);
                }
                out.push(b);
                proof {
                    let rest = bucket_lines(s@, r + 1);
                    match rest {
                        Outcome::Match(vs, _) => {
                            assert(before + (seq![b] + vs) =~= out@ + vs);
                        },
                        _ => {},
                    }
                }
                q = r + 1;
            },
            Parsed::NoMatch => {
                proof {
                    assert(out@ + Seq::<BrwStatsBucket>::empty() =~= out@);
                }
                return Parsed::Match(out, q);
            },
            Parsed::Overflow(x) => {
                return Parsed::Overflow(x);
            },
        }
    }
}

/// The `read | write` column line, up to its line feed.
pub open spec fn rw_columns(s: Seq<char>, p: int) -> Outcome<()> {
    if !lit_at(s, p, "read"@) {
        Outcome::NoMatch
    } else {
        let a = spaces(s, p + "read"@.len());
        if !char_at(s, a, '|') {
            Outcome::NoMatch
        } else {
            let b = spaces(s, a + 1);
            if !lit_at(s, b, "write"@) {
                Outcome::NoMatch
            } else {
                Outcome::Match((), till_newline(s, b + "write"@.len()))
            }
        }
    }
}

pub fn read_rw_columns(s: &[char], p: usize) -> (r: Parsed<()>)
    requires
        p <= s@.len(),
    ensures
        lift_view(r) == rw_columns(s@, p as int),
        advances(lift_view(r), s@, p as int),
{
    if !match_lit(s, p, "read") {
        return Parsed::NoMatch;
    }
    let a = run(s, p + "read".unicode_len(), CharClass::Space);
    if !is_char_at(s, a, '|') {
        return Parsed::NoMatch;
    }
    let b = run(s, a + 1, CharClass::Space);
    if !match_lit(s, b, "write") {
        return Parsed::NoMatch;
    }
    Parsed::Match((), run(s, b + "write".unicode_len(), CharClass::Line))
}

/// The known histogram titles and the short names they are reported under.
pub open spec fn histogram_title(s: Seq<char>, p: int) -> Option<(Seq<char>, int)> {
    if lit_at(s, p, "pages per bulk r/w"@) {
        Some(("pages"@, p + "pages per bulk r/w"@.len()))
    } else if lit_at(s, p, "discontiguous pages"@) {
        Some(("discont_pages"@, p + "discontiguous pages"@.len()))
    } else if lit_at(s, p, "discontiguous blocks"@) {
        Some(("discont_blocks"@, p + "discontiguous blocks"@.len()))
    } else if lit_at(s, p, "disk fragmented I/Os"@) {
        Some(("dio_frags"@, p + "disk fragmented I/Os"@.len()))
    } else if lit_at(s, p, "disk I/Os in flight"@) {
        Some(("rpc_hist"@, p + "disk I/Os in flight"@.len()))
    } else if lit_at(s, p, "I/O time (1/1000s)"@) {
        Some(("io_time"@, p + "I/O time (1/1000s)"@.len()))
    } else if lit_at(s, p, "disk I/O size"@) {
        Some(("disk_iosize"@, p + "disk I/O size"@.len()))
    } else if lit_at(s, p, "block maps msec"@) {
        Some(("block_maps_msec"@, p + "block maps msec"@.len()))
    } else {
        None
    }
}

fn title_entry(s: &[char], p: usize, title: &str, short: &str) -> (r: Option<(String, usize)>)
    requires
        p <= s@.len(),
    ensures
        match r {
            Some((n, q)) => lit_at(s@, p as int, title@) && n@ == short@ && q == p + title@.len(),
            None => !lit_at(s@, p as int, title@),
        },
{
    if match_lit(s, p, title) {
        Some((String::from_str(short), p + title.unicode_len()))
    } else {
        None
    }
}

fn read_histogram_title(s: &[char], p: usize) -> (r: Option<(String, usize)>)
    requires
        p <= s@.len(),
    ensures
        match (r, histogram_title(s@, p as int)) {
            (Some((n, q)), Some((m, e))) => n@ == m && q == e,
            (None, None) => true,
            _ => false,
        },
{
    let r = title_entry(s, p, "pages per bulk r/w", "pages");
    if r.is_some() {
        return r;
    }
    let r = title_entry(s, p, "discontiguous pages", "discont_pages");
    if r.is_some() {
        return r;
    }
    let r = title_entry(s, p, "discontiguous blocks", "discont_blocks");
    if r.is_some() {
        return r;
    }
    let r = title_entry(s, p, "disk fragmented I/Os", "dio_frags");
    if r.is_some() {
        return r;
    }
    let r = title_entry(s, p, "disk I/Os in flight", "rpc_hist");
    if r.is_some() {
        return r;
    }
    let r = title_entry(s, p, "I/O time (1/1000s)", "io_time");
    if r.is_some() {
        return r;
    }
    let r = title_entry(s, p, "disk I/O size", "disk_iosize");
    if r.is_some() {
        return r;
    }
    title_entry(s, p, "block maps msec", "block_maps_msec")
}

/// A histogram's header line up to its line feed: its title and the unit its buckets count.
pub open spec fn histogram_header(s: Seq<char>, p: int) -> Outcome<(Seq<char>, Seq<char>)> {
    match histogram_title(s, p) {
        Some((name, a)) => match word(s, spaces(s, a)) {
            Outcome::Match(unit, b) => Outcome::Match((name, unit), till_newline(s, b)),
            _ => Outcome::NoMatch,
        },
        None => Outcome::NoMatch,
    }
}

pub fn read_histogram_header(s: &[char], p: usize) -> (r: Parsed<(String, String)>)
    requires
        p <= s@.len(),
    ensures
        lift(r, |v: (String, String)| (v.0@, v.1@)) == histogram_header(s@, p as int),
        match r {
            Parsed::Match(_, q) => p < q <= s@.len(),
            _ => true,
        },
{
    match read_histogram_title(s, p) {
        Some((name, a)) => {
            proof {
                assert(a > p) by {
                    reveal_strlit("pages per bulk r/w");
                    reveal_strlit("discontiguous pages");
                    reveal_strlit("discontiguous blocks");
                    reveal_strlit("disk fragmented I/Os");
                    reveal_strlit("disk I/Os in flight");
                    reveal_strlit("I/O time (1/1000s)");
                    reveal_strlit("disk I/O size");
                    reveal_strlit("block maps msec");
                }
            }
            let b = run(s, a, CharClass::Space);
            let c = run(s, b, CharClass::Word);
            if c == b {
                return Parsed::NoMatch;
            }
            let unit = string_of(s, b, c);
            Parsed::Match((name, unit), run(s, c, CharClass::Line))
        },
        None => Parsed::NoMatch,
    }
}

/// One histogram section: column line, header line, bucket lines, then any whitespace.
pub open spec fn section(s: Seq<char>, p: int) -> Outcome<BrwStatsView> {
    match rw_columns(s, p) {
        Outcome::Match(_, a) => if !char_at(s, a, '\n') {
            Outcome::NoMatch
        } else {
            match histogram_header(s, a + 1) {
                Outcome::Match(h, b) => if !char_at(s, b, '\n') {
                    Outcome::NoMatch
                } else {
                    match bucket_lines(s, b + 1) {
                        Outcome::Match(buckets, c) => Outcome::Match(
                            BrwStatsView { name: h.0, unit: h.1, buckets },
                            spaces(s, c),
                        ),
                        Outcome::NoMatch => Outcome::NoMatch,
                        Outcome::Overflow(x) => Outcome::Overflow(x),
                    }
                },
                _ => Outcome::NoMatch,
            }
        },
        _ => Outcome::NoMatch,
    }
}

pub fn read_section(s: &[char], p: usize) -> (r: Parsed<BrwStats>)
    requires
        p <= s@.len(),
    ensures
        lift_view(r) == section(s@, p as int),
        advances(lift_view(r), s@, p as int),
{
    let a = match read_rw_columns(s, p) {
        Parsed::Match(_, a) => a,
        _ => return Parsed::NoMatch,
    };
    if !is_char_at(s, a, '\n') {
        return Parsed::NoMatch;
    }
    let ((name, unit), b) = match read_histogram_header(s, a + 1) {
        Parsed::Match(h, b) => (h, b),
        _ => return Parsed::NoMatch,
    };
    if !is_char_at(s, b, '\n') {
        return Parsed::NoMatch;
    }
    match read_bucket_lines(s, b + 1) {
        Parsed::Match(buckets, c) => {
            let d = run(s, c, CharClass::Space);
            Parsed::Match(BrwStats { name, unit, buckets }, d)
        },
        Parsed::NoMatch => Parsed::NoMatch,
        Parsed::Overflow(x) => Parsed::Overflow(x),
    }
}

/// Histogram sections, as many as follow one another.
pub open spec fn sections(s: Seq<char>, p: int) -> Outcome<Seq<BrwStatsView>>
    decreases s.len() - p,
{
    match section(s, p) {
        Outcome::Match(v, q) => if p < q <= s.len() {
            prepend(seq![v], sections(s, q))
        } else {
            Outcome::Match(seq![v], q)
        },
        Outcome::NoMatch => Outcome::Match(Seq::empty(), p),
        Outcome::Overflow(x) => Outcome::Overflow(x),
    }
}

fn read_sections(s: &[char], p: usize) -> (r: Parsed<Vec<BrwStats>>)
    requires
        p <= s@.len(),
    ensures
        lift(r, |v: Vec<BrwStats>| histograms_view(v@)) == sections(s@, p as int),
        match r {
            Parsed::Match(_, q) => p <= q <= s@.len(),
            Parsed::Overflow(x) => p <= x <= s@.len(),
            Parsed::NoMatch => false,
        },
{
    let mut out: Vec<BrwStats> = Vec::new();
    let mut q = p;
    loop
        invariant
            p <= q <= s@.len(),
            sections(s@, p as int) == prepend(histograms_view(out@), sections(s@, q as int)),
        decreases s@.len() - q,
    {
        let ghost before = out@;
        match read_section(s, q) {
            Parsed::Match(v, r) => {
                out.push(v);
                proof {
                    assert(histograms_view(out@) =~= histograms_view(before) + seq![v@]);
                    let rest = sections(s@, r as int);
                    match rest {
                        Outcome::Match(vs, _) => {
                            assert(histograms_view(before) + (seq![v@] + vs) =~= histograms_view(
                                out@,
                            ) + vs);
                        },
                        _ => {},
                    }
                }
                q = r;
            },
            Parsed::NoMatch => {
                proof {
                    assert(histograms_view(out@) + Seq::<BrwStatsView>::empty() =~= histograms_view(
                        out@,
                    ));
                }
                return Parsed::Match(out, q);
            },
            Parsed::Overflow(x) => {
                return Parsed::Overflow(x);
            },
        }
    }
}

/// A histogram document as it follows a `brw_stats=` key: a line feed, the timestamp
/// header, whitespace and at least one section.
pub open spec fn brw_stats_document(s: Seq<char>, p: int) -> Outcome<Seq<BrwStatsView>> {
    if !char_at(s, p, '\n') {
        Outcome::NoMatch
    } else {
        match time_header(s, p + 1) {
            Outcome::Match(_, q) => match sections(s, spaces(s, q)) {
                Outcome::Match(vs, r) => if vs.len() == 0 {
                    Outcome::NoMatch
                } else {
                    Outcome::Match(vs, r)
                },
                o => o,
            },
            Outcome::NoMatch => Outcome::NoMatch,
            Outcome::Overflow(x) => Outcome::Overflow(x),
        }
    }
}

/// Reads a histogram document.
pub fn brw_stats(s: &[char], p: usize) -> (r: Parsed<Vec<BrwStats>>)
    requires
        p <= s@.len(),
    ensures
        lift(r, |v: Vec<BrwStats>| histograms_view(v@)) == brw_stats_document(s@, p as int),
        advances(lift(r, |v: Vec<BrwStats>| histograms_view(v@)), s@, p as int),
{
    if !is_char_at(s, p, '\n') {
        return Parsed::NoMatch;
    }
    let q = match read_time_header(s, p + 1) {
        Parsed::Match(_, q) => q,
        Parsed::NoMatch => return Parsed::NoMatch,
        Parsed::Overflow(x) => return Parsed::Overflow(x),
    };
    let q2 = run(s, q, CharClass::Space);
    match read_sections(s, q2) {
        Parsed::Match(v, r) => if v.len() == 0 {
            Parsed::NoMatch
        } else {
            Parsed::Match(v, r)
        },
        Parsed::NoMatch => Parsed::NoMatch,
        Parsed::Overflow(x) => Parsed::Overflow(x),
    }
}

} // verus!
