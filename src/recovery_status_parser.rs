//! Recovery status blocks: `obdfilter.<target>.recovery_status=` or
//! `mdt.<target>.recovery_status=`, then `status:` and client count lines in any order,
//! among other lines of the block that are skipped.
use crate::base_parsers::{
    char_at, digits, is_char_at, key_at, lift, lift_view, match_key, read_digits, run, span_of,
    spaces, target, till_newline, CharClass, Outcome, Parsed,
};
use crate::error::LustreCollectorError;
use crate::parser::whole_input;
use crate::stats_parser::prepend;
use crate::text::{lit_at, match_lit};
use crate::types::{
    records_view, Param, Record, RecordView, RecoveryStatus, Target, TargetField, TargetStat,
    TargetStats, TargetVariant, ValueView,
};
use crate::values::{pattern, strings_view};
use vstd::prelude::*;

verus! {

pub const RECOVERY_STATUS: &'static str = "recovery_status";

/// The query patterns for the recovery status.
pub fn params() -> (r: Vec<String>)
    ensures
        strings_view(r@) == seq![
            "obdfilter.*OST*."@ + RECOVERY_STATUS@,
            "mdt.*MDT*."@ + RECOVERY_STATUS@,
        ],
{
    let mut v: Vec<String> = Vec::new();
    v.push(pattern("obdfilter.*OST*.", RECOVERY_STATUS));
    v.push(pattern("mdt.*MDT*.", RECOVERY_STATUS));
    assert(strings_view(v@) =~= seq![
        "obdfilter.*OST*."@ + RECOVERY_STATUS@,
        "mdt.*MDT*."@ + RECOVERY_STATUS@,
    ]);
    v
}

/// What one line of a block reports.
#[derive(PartialEq, Eq, Structural, Clone, Copy)]
pub enum RecoveryStat {
    Status(RecoveryStatus),
    Completed(u64),
    Connected(u64),
    Evicted(u64),
}

/// The status that a status line's text names; any other text is `Unknown`.
pub open spec fn status_of(t: Seq<char>) -> RecoveryStatus {
    if t == "COMPLETE"@ {
        RecoveryStatus::Complete
    } else if t == "INACTIVE"@ {
        RecoveryStatus::Inactive
    } else if t == "WAITING"@ {
        RecoveryStatus::Waiting
    } else if t == "WAITING_FOR_CLIENTS"@ {
        RecoveryStatus::WaitingForClients
    } else if t == "RECOVERING"@ {
        RecoveryStatus::Recovering
    } else {
        RecoveryStatus::Unknown
    }
}

fn is_text(s: &[char], a: usize, b: usize, lit: &str) -> (r: bool)
    requires
        a <= b <= s@.len(),
    ensures
        r == (s@.subrange(a as int, b as int) == lit@),
{
    let r = b - a == lit.unicode_len() && match_lit(s, a, lit);
    proof {
        if s@.subrange(a as int, b as int) == lit@ {
            assert(s@.subrange(a as int, a + lit@.len()) =~= s@.subrange(a as int, b as int));
        }
        if r {
            assert(s@.subrange(a as int, a + lit@.len()) =~= s@.subrange(a as int, b as int));
        }
    }
    r
}

/// Maps the text `s[a..b]` of a status line to its status.
pub fn status_from(s: &[char], a: usize, b: usize) -> (r: RecoveryStatus)
    requires
        a <= b <= s@.len(),
    ensures
        r == status_of(s@.subrange(a as int, b as int)),
{
    if is_text(s, a, b, "COMPLETE") {
        RecoveryStatus::Complete
    } else if is_text(s, a, b, "INACTIVE") {
        RecoveryStatus::Inactive
    } else if is_text(s, a, b, "WAITING") {
        RecoveryStatus::Waiting
    } else if is_text(s, a, b, "WAITING_FOR_CLIENTS") {
        RecoveryStatus::WaitingForClients
    } else if is_text(s, a, b, "RECOVERING") {
        RecoveryStatus::Recovering
    } else {
        RecoveryStatus::Unknown
    }
}

/// One line feed, if one stands at `p`.
pub open spec fn skip_newline(s: Seq<char>, p: int) -> int {
    if char_at(s, p, '\n') {
        p + 1
    } else {
        p
    }
}

fn skip_newline_at(s: &[char], p: usize) -> (r: usize)
    requires
        p <= s@.len(),
    ensures
        r == skip_newline(s@, p as int),
        p <= r <= s@.len(),
{
    if is_char_at(s, p, '\n') {
        p + 1
    } else {
        p
    }
}

/// Past `name` and an optional `:` and whitespace.
pub open spec fn after_label(s: Seq<char>, p: int, name: Seq<char>) -> int {
    let a = p + name.len();
    spaces(
        s,
        if char_at(s, a, ':') {
            a + 1
        } else {
            a
        },
    )
}

fn after_label_at(s: &[char], p: usize, name: &str) -> (r: usize)
    requires
        lit_at(s@, p as int, name@),
        p + name@.len() <= s.len(),
    ensures
        r == after_label(s@, p as int, name@),
        p + name@.len() <= r <= s@.len(),
{
    let a = p + name.unicode_len();
    let b = if is_char_at(s, a, ':') {
        a + 1
    } else {
        a
    };
    run(s, b, CharClass::Space)
}

/// A `status[:] <word>` line and the line feed after it.
pub open spec fn status_line(s: Seq<char>, p: int) -> Option<(RecoveryStatus, int)> {
    if !lit_at(s, p, "status"@) {
        None
    } else {
        let c = after_label(s, p, "status"@);
        let e = till_newline(s, c);
        Some((status_of(s.subrange(c, e)), skip_newline(s, e)))
    }
}

/// A `<name>[:] <n>[/<m>]` line and up to two line feeds after it.
pub open spec fn clients_line(s: Seq<char>, p: int, name: Seq<char>) -> Outcome<u64> {
    if !lit_at(s, p, name) {
        Outcome::NoMatch
    } else {
        match digits(s, after_label(s, p, name)) {
            Outcome::Match(n, d) => if char_at(s, d, '/') {
                match digits(s, d + 1) {
                    Outcome::Match(_, e) => Outcome::Match(
                        n,
                        skip_newline(s, skip_newline(s, e)),
                    ),
                    Outcome::NoMatch => Outcome::NoMatch,
                    Outcome::Overflow(x) => Outcome::Overflow(x),
                }
            } else {
                Outcome::Match(n, skip_newline(s, skip_newline(s, d)))
            },
            Outcome::NoMatch => Outcome::NoMatch,
            Outcome::Overflow(x) => Outcome::Overflow(x),
        }
    }
}

fn read_clients_line(s: &[char], p: usize, name: &str) -> (r: Parsed<u64>)
    requires
        p <= s@.len(),
    ensures
        lift_view(r) == clients_line(s@, p as int, name@),
        match r {
            Parsed::Match(_, q) => p < q <= s@.len(),
            Parsed::Overflow(x) => p <= x <= s@.len(),
            Parsed::NoMatch => true,
        },
{
    if !match_lit(s, p, name) {
        return Parsed::NoMatch;
    }
    let c = after_label_at(s, p, name);
    match read_digits(s, c) {
        Parsed::Match(n, d) => if is_char_at(s, d, '/') {
            match read_digits(s, d + 1) {
                Parsed::Match(_, e) => {
                    let f = skip_newline_at(s, e);
                    Parsed::Match(n, skip_newline_at(s, f))
                },
                Parsed::NoMatch => Parsed::NoMatch,
                Parsed::Overflow(x) => Parsed::Overflow(x),
            }
        } else {
            let f = skip_newline_at(s, d);
            Parsed::Match(n, skip_newline_at(s, f))
        },
        Parsed::NoMatch => Parsed::NoMatch,
        Parsed::Overflow(x) => Parsed::Overflow(x),
    }
}

/// Any other `<word>: ...` line of the block, which is skipped.
pub open spec fn other_line(s: Seq<char>, p: int) -> Option<int> {
    match target(s, p) {
        Outcome::Match(_, a) => if char_at(s, a, ':') {
            Some(skip_newline(s, till_newline(s, a + 1)))
        } else {
            None
        },
        _ => None,
    }
}

/// One line of a block: what it reports, or `None` for a line that is skipped.
pub open spec fn recovery_item(s: Seq<char>, p: int) -> Outcome<Option<RecoveryStat>> {
    match status_line(s, p) {
        Some((v, q)) => Outcome::Match(Some(RecoveryStat::Status(v)), q),
        None => match clients_line(s, p, "completed_clients"@) {
            Outcome::Match(n, q) => Outcome::Match(Some(RecoveryStat::Completed(n)), q),
            Outcome::Overflow(x) => Outcome::Overflow(x),
            Outcome::NoMatch => match clients_line(s, p, "connected_clients"@) {
                Outcome::Match(n, q) => Outcome::Match(Some(RecoveryStat::Connected(n)), q),
                Outcome::Overflow(x) => Outcome::Overflow(x),
                Outcome::NoMatch => match clients_line(s, p, "evicted_clients"@) {
                    Outcome::Match(n, q) => Outcome::Match(Some(RecoveryStat::Evicted(n)), q),
                    Outcome::Overflow(x) => Outcome::Overflow(x),
                    Outcome::NoMatch => match other_line(s, p) {
                        Some(q) => Outcome::Match(None, q),
                        None => Outcome::NoMatch,
                    },
                },
            },
        },
    }
}

fn read_item(s: &[char], p: usize) -> (r: Parsed<Option<RecoveryStat>>)
    requires
        p <= s@.len(),
    ensures
        lift_view(r) == recovery_item(s@, p as int),
        match r {
            Parsed::Match(_, q) => p < q <= s@.len(),
            Parsed::Overflow(x) => p <= x <= s@.len(),
            Parsed::NoMatch => true,
        },
{
    if match_lit(s, p, "status") {
        let c = after_label_at(s, p, "status");
        let e = run(s, c, CharClass::Line);
        let v = status_from(s, c, e);
        proof {
            reveal_strlit("status");
        }
        return Parsed::Match(Some(RecoveryStat::Status(v)), skip_newline_at(s, e));
    }
    match read_clients_line(s, p, "completed_clients") {
        Parsed::Match(n, q) => return Parsed::Match(Some(RecoveryStat::Completed(n)), q),
        Parsed::Overflow(x) => return Parsed::Overflow(x),
        Parsed::NoMatch => {},
    }
    match read_clients_line(s, p, "connected_clients") {
        Parsed::Match(n, q) => return Parsed::Match(Some(RecoveryStat::Connected(n)), q),
        Parsed::Overflow(x) => return Parsed::Overflow(x),
        Parsed::NoMatch => {},
    }
    match read_clients_line(s, p, "evicted_clients") {
        Parsed::Match(n, q) => return Parsed::Match(Some(RecoveryStat::Evicted(n)), q),
        Parsed::Overflow(x) => return Parsed::Overflow(x),
        Parsed::NoMatch => {},
    }
    match span_of(s, p, CharClass::Target) {
        Parsed::Match(_, a) => if is_char_at(s, a, ':') {
            let e = run(s, a + 1, CharClass::Line);
            Parsed::Match(None, skip_newline_at(s, e))
        } else {
            Parsed::NoMatch
        },
        _ => Parsed::NoMatch,
    }
}

/// The lines of a block, as many as follow one another.
pub open spec fn recovery_items(s: Seq<char>, p: int) -> Outcome<Seq<Option<RecoveryStat>>>
    decreases s.len() - p,
{
    match recovery_item(s, p) {
        Outcome::Match(v, q) => if p < q <= s.len() {
            prepend(seq![v], recovery_items(s, q))
        } else {
            Outcome::Match(seq![v], q)
        },
        Outcome::NoMatch => Outcome::Match(Seq::empty(), p),
        Outcome::Overflow(x) => Outcome::Overflow(x),
    }
}

fn read_items(s: &[char], p: usize) -> (r: Parsed<Vec<Option<RecoveryStat>>>)
    requires
        p <= s@.len(),
    ensures
        lift_view(r) == recovery_items(s@, p as int),
        match r {
            Parsed::Match(_, q) => p <= q <= s@.len(),
            Parsed::Overflow(x) => p <= x <= s@.len(),
            Parsed::NoMatch => false,
        },
{
    let mut out: Vec<Option<RecoveryStat>> = Vec::new();
    let mut q = p;
    loop
        invariant
            p <= q <= s@.len(),
            recovery_items(s@, p as int) == prepend(out@, recovery_items(s@, q as int)),
        decreases s@.len() - q,
    {
        let ghost before = out@;
        match read_item(s, q) {
            Parsed::Match(v, r) => {
                out.push(v);
                proof {
                    let rest = recovery_items(s@, r as int);
                    match rest {
                        Outcome::Match(vs, _) => {
                            assert(before + (seq![v] + vs) =~= out@ + vs);
                        },
                        _ => {},
                    }
                }
                q = r;
            },
            Parsed::NoMatch => {
                proof {
                    assert(out@ + Seq::<Option<RecoveryStat>>::empty() =~= out@);
                }
                return Parsed::Match(out, q);
            },
            Parsed::Overflow(x) => {
                return Parsed::Overflow(x);
            },
        }
    }
}

/// A block's first line, up to the `=` after `recovery_status`: the kind and the target.
pub open spec fn target_info(s: Seq<char>, p: int) -> Option<((TargetVariant, Seq<char>), int)> {
    let k = if lit_at(s, p, "obdfilter"@) {
        Some((TargetVariant::OST, p + "obdfilter"@.len()))
    } else if lit_at(s, p, "mdt"@) {
        Some((TargetVariant::MDT, p + "mdt"@.len()))
    } else {
        None
    };
    match k {
        Some((kind, a)) => if char_at(s, a, '.') {
            match target(s, a + 1) {
                Outcome::Match(t, b) => if char_at(s, b, '.') && key_at(
                    s,
                    b + 1,
                    RECOVERY_STATUS@,
                ) {
                    Some(((kind, t), b + 1 + RECOVERY_STATUS@.len() + 1))
                } else {
                    None
                },
                _ => None,
            }
        } else {
            None
        },
        None => None,
    }
}

fn read_target_info(s: &[char], p: usize) -> (r: Option<(TargetVariant, Target, usize)>)
    requires
        p <= s@.len(),
    ensures
        match r {
            Some((k, t, q)) => target_info(s@, p as int) == Some(((k, t@), q as int)) && p < q
                <= s@.len(),
            None => target_info(s@, p as int) is None,
        },
{
    let (kind, a) = if match_lit(s, p, "obdfilter") {
        (TargetVariant::OST, p + "obdfilter".unicode_len())
    } else if match_lit(s, p, "mdt") {
        (TargetVariant::MDT, p + "mdt".unicode_len())
    } else {
        return None;
    };
    if !is_char_at(s, a, '.') {
        return None;
    }
    match span_of(s, a + 1, CharClass::Target) {
        Parsed::Match(t, b) => if is_char_at(s, b, '.') && match_key(s, b + 1, RECOVERY_STATUS) {
            Some((kind, Target(t), b + 1 + RECOVERY_STATUS.unicode_len() + 1))
        } else {
            None
        },
        _ => None,
    }
}

pub open spec fn recovery_record_view(
    kind: TargetVariant,
    t: Seq<char>,
    st: RecoveryStat,
) -> RecordView {
    let (field, value) = match st {
        RecoveryStat::Status(v) => (TargetField::RecoveryStatus, ValueView::Recovery(v)),
        RecoveryStat::Completed(n) => (TargetField::RecoveryCompletedClients, ValueView::Count(n)),
        RecoveryStat::Connected(n) => (TargetField::RecoveryConnectedClients, ValueView::Count(n)),
        RecoveryStat::Evicted(n) => (TargetField::RecoveryEvictedClients, ValueView::Count(n)),
    };
    RecordView::Target { field, kind, target: t, param: RECOVERY_STATUS@, value }
}

/// The records of a block's lines: one for each line that reports something.
pub open spec fn item_records(
    kind: TargetVariant,
    t: Seq<char>,
    items: Seq<Option<RecoveryStat>>,
) -> Seq<RecordView>
    decreases items.len(),
{
    if items.len() == 0 {
        Seq::empty()
    } else {
        let rest = item_records(kind, t, items.drop_last());
        match items.last() {
            Some(st) => rest.push(recovery_record_view(kind, t, st)),
            None => rest,
        }
    }
}

fn recovery_record(kind: TargetVariant, t: &Target, st: RecoveryStat) -> (r: Record)
    ensures
        r@ == recovery_record_view(kind, t@, st),
{
    let param = Param(String::from_str(RECOVERY_STATUS));
    let target = Target(t.0.clone());
    match st {
        RecoveryStat::Status(value) => Record::Target(
            TargetStats::RecoveryStatus(TargetStat { kind, param, target, value }),
        ),
        RecoveryStat::Completed(value) => Record::Target(
            TargetStats::RecoveryCompletedClients(TargetStat { kind, param, target, value }),
        ),
        RecoveryStat::Connected(value) => Record::Target(
            TargetStats::RecoveryConnectedClients(TargetStat { kind, param, target, value }),
        ),
        RecoveryStat::Evicted(value) => Record::Target(
            TargetStats::RecoveryEvictedClients(TargetStat { kind, param, target, value }),
        ),
    }
}

fn records_of_items(kind: TargetVariant, t: &Target, items: &Vec<Option<RecoveryStat>>) -> (r: Vec<
    Record,
>)
    ensures
        records_view(r@) == item_records(kind, t@, items@),
{
    let mut out: Vec<Record> = Vec::new();
    let mut i: usize = 0;
    while i < items.len()
        invariant
            i <= items@.len(),
            records_view(out@) == item_records(kind, t@, items@.take(i as int)),
        decreases items.len() - i,
    {
        proof {
            assert(items@.take(i as int + 1).drop_last() =~= items@.take(i as int));
            assert(items@.take(i as int + 1).last() == items@[i as int]);
        }
        match items[i] {
            Some(st) => {
                let ghost before = out@;
                let r = recovery_record(kind, t, st);
                out.push(r);
                assert(records_view(out@) =~= records_view(before).push(r@));
            },
            None => {},
        }
        i = i + 1;
    }
    assert(items@.take(items@.len() as int) =~= items@);
    out
}

/// One block: its first line, its lines, and the records they give.
pub open spec fn target_status(s: Seq<char>, p: int) -> Outcome<Seq<RecordView>> {
    match target_info(s, p) {
        Some(((kind, t), q)) => match recovery_items(s, skip_newline(s, q)) {
            Outcome::Match(items, r) => Outcome::Match(item_records(kind, t, items), r),
            Outcome::NoMatch => Outcome::NoMatch,
            Outcome::Overflow(x) => Outcome::Overflow(x),
        },
        None => Outcome::NoMatch,
    }
}

/// Where the next block may start: the next `obdfilter` or `mdt`, or the end of the input.
pub open spec fn next_block(s: Seq<char>, p: int) -> int
    decreases s.len() - p,
{
    if p < 0 || p >= s.len() {
        s.len() as int
    } else if lit_at(s, p, "obdfilter"@) || lit_at(s, p, "mdt"@) {
        p
    } else {
        next_block(s, p + 1)
    }
}

fn find_next_block(s: &[char], p: usize) -> (r: usize)
    requires
        p <= s@.len(),
    ensures
        r == next_block(s@, p as int),
        p <= r <= s@.len(),
{
    let mut i = p;
    while i < s.len() && !(match_lit(s, i, "obdfilter") || match_lit(s, i, "mdt"))
        invariant
            p <= i <= s@.len(),
            next_block(s@, p as int) == next_block(s@, i as int),
        decreases s.len() - i,
    {
        i = i + 1;
    }
    i
}

/// The blocks, one after another, each followed by whatever comes before the next.
pub open spec fn recovery_blocks(s: Seq<char>, p: int) -> Outcome<Seq<RecordView>>
    decreases s.len() - p,
{
    match target_status(s, p) {
        Outcome::Match(rs, q) => {
            let r = next_block(s, q);
            if p < r <= s.len() {
                prepend(rs, recovery_blocks(s, r))
            } else {
                Outcome::Match(rs, r)
            }
        },
        Outcome::NoMatch => Outcome::Match(Seq::empty(), p),
        Outcome::Overflow(x) => Outcome::Overflow(x),
    }
}

fn read_target_status(s: &[char], p: usize) -> (r: Parsed<Vec<Record>>)
    requires
        p <= s@.len(),
    ensures
        lift(r, |v: Vec<Record>| records_view(v@)) == target_status(s@, p as int),
        match r {
            Parsed::Match(_, q) => p < q <= s@.len(),
            Parsed::Overflow(x) => p <= x <= s@.len(),
            Parsed::NoMatch => true,
        },
{
    let (kind, t, q) = match read_target_info(s, p) {
        Some(x) => x,
        None => return Parsed::NoMatch,
    };
    let q2 = skip_newline_at(s, q);
    match read_items(s, q2) {
        Parsed::Match(items, r) => Parsed::Match(records_of_items(kind, &t, &items), r),
        Parsed::NoMatch => Parsed::NoMatch,
        Parsed::Overflow(x) => Parsed::Overflow(x),
    }
}

/// Reads the blocks from `p` on.
pub fn parse(s: &[char], p: usize) -> (r: Parsed<Vec<Record>>)
    requires
        p <= s@.len(),
    ensures
        lift(r, |v: Vec<Record>| records_view(v@)) == recovery_blocks(s@, p as int),
        match r {
            Parsed::Match(_, q) => p <= q <= s@.len(),
            Parsed::Overflow(x) => p <= x <= s@.len(),
            Parsed::NoMatch => false,
        },
{
    let mut out: Vec<Record> = Vec::new();
    let mut q = p;
    loop
        invariant
            p <= q <= s@.len(),
            recovery_blocks(s@, p as int) == prepend(records_view(out@), recovery_blocks(s@, q as int)),
        decreases s@.len() - q,
    {
        let ghost before = out@;
        match read_target_status(s, q) {
            Parsed::Match(mut rs, e) => {
                let r = find_next_block(s, e);
                let ghost added = records_view(rs@);
                out.append(&mut rs);
                proof {
                    assert(records_view(out@) =~= records_view(before) + added);
                    let rest = recovery_blocks(s@, r as int);
                    match rest {
                        Outcome::Match(vs, _) => {
                            assert(records_view(before) + (added + vs) =~= records_view(out@)
                                + vs);
                        },
                        _ => {},
                    }
                }
                q = r;
            },
            Parsed::NoMatch => {
                proof {
                    assert(records_view(out@) + Seq::<RecordView>::empty() =~= records_view(out@));
                }
                return Parsed::Match(out, q);
            },
            Parsed::Overflow(x) => {
                return Parsed::Overflow(x);
            },
        }
    }
}

/// What a recovery status listing yields, read after its surrounding whitespace is cut.
pub open spec fn recovery_output(s: Seq<char>) -> Result<Seq<RecordView>, LustreCollectorError> {
    whole_input(recovery_blocks(s, 0), s.len() as int)
}

} // verus!
