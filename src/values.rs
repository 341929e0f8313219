//! The values that follow a `name=` key, and the records built from a target, a key and
//! a value.
use crate::base_parsers::{
    advances, char_at, count_line, is_char_at, key_at, lift_view, match_key, read_count_line,
    run, span_of, target, till_newline, words, CharClass, Outcome, Parsed,
};
use crate::brw_stats_parser::{brw_stats, brw_stats_document};
use crate::job_stats::{job_stats_document, read_job_stats};
use crate::stats_parser::{stats, stats_table};
use crate::text::{lit_at, match_lit, string_of};
use crate::types::{
    histograms_view, jobs_view, stats_view, BrwStats, HostField, HostStat, HostStats, Param,
    Record, RecordView, Stat, Target, TargetField, TargetStat, TargetStats, TargetVariant,
    ValueView,
};
use vstd::prelude::*;

verus! {

/// The shapes of value that a key may announce.
#[derive(PartialEq, Eq, Structural, Clone, Copy)]
pub enum ValueKind {
    /// A number alone on its line.
    Count,
    /// A number of kibibytes alone on its line, reported in bytes.
    KiloBytes,
    /// The rest of the line, as text.
    Line,
    /// Alphanumeric words and spaces, alone on the line.
    Words,
    /// A statistics table.
    Table,
    /// A histogram document.
    Histograms,
    /// A job accounting document.
    Jobs,
}

/// A value read after a key.
pub enum Value {
    Count(u64),
    Text(String),
    Table(Vec<Stat>),
    Histograms(Vec<BrwStats>),
    Jobs(Option<String>),
}

impl View for Value {
    type V = ValueView;

    open spec fn view(&self) -> ValueView {
        match *self {
            Value::Count(n) => ValueView::Count(n),
            Value::Text(t) => ValueView::Text(t@),
            Value::Table(v) => ValueView::Table(stats_view(v@)),
            Value::Histograms(v) => ValueView::Histograms(histograms_view(v@)),
            Value::Jobs(d) => ValueView::Jobs(jobs_view(d)),
        }
    }
}

/// The value of shape `k` that starts at `p`.
pub open spec fn param_value(s: Seq<char>, p: int, k: ValueKind) -> Outcome<ValueView> {
    match k {
        ValueKind::Count => match count_line(s, p) {
            Outcome::Match(n, q) => Outcome::Match(ValueView::Count(n), q),
            Outcome::NoMatch => Outcome::NoMatch,
            Outcome::Overflow(x) => Outcome::Overflow(x),
        },
        ValueKind::KiloBytes => match count_line(s, p) {
            Outcome::Match(n, q) => if n * 1024 > u64::MAX {
                Outcome::Overflow(p)
            } else {
                Outcome::Match(ValueView::Count((n * 1024) as u64), q)
            },
            Outcome::NoMatch => Outcome::NoMatch,
            Outcome::Overflow(x) => Outcome::Overflow(x),
        },
        ValueKind::Line => {
            let q = till_newline(s, p);
            if char_at(s, q, '\n') {
                Outcome::Match(ValueView::Text(s.subrange(p, q)), q + 1)
            } else {
                Outcome::NoMatch
            }
        },
        ValueKind::Words => match words(s, p) {
            Outcome::Match(w, q) => if char_at(s, q, '\n') {
                Outcome::Match(ValueView::Text(w), q + 1)
            } else {
                Outcome::NoMatch
            },
            _ => Outcome::NoMatch,
        },
        ValueKind::Table => match stats_table(s, p) {
            Outcome::Match(v, q) => Outcome::Match(ValueView::Table(v), q),
            Outcome::NoMatch => Outcome::NoMatch,
            Outcome::Overflow(x) => Outcome::Overflow(x),
        },
        ValueKind::Histograms => match brw_stats_document(s, p) {
            Outcome::Match(v, q) => Outcome::Match(ValueView::Histograms(v), q),
            Outcome::NoMatch => Outcome::NoMatch,
            Outcome::Overflow(x) => Outcome::Overflow(x),
        },
        ValueKind::Jobs => match job_stats_document(s, p) {
            Outcome::Match(v, q) => Outcome::Match(ValueView::Jobs(v), q),
            Outcome::NoMatch => Outcome::NoMatch,
            Outcome::Overflow(x) => Outcome::Overflow(x),
        },
    }
}

/// Whether a value is of the shape that `k` announces.
pub open spec fn kind_of_value(k: ValueKind, v: ValueView) -> bool {
    match k {
        ValueKind::Count | ValueKind::KiloBytes => v is Count,
        ValueKind::Line | ValueKind::Words => v is Text,
        ValueKind::Table => v is Table,
        ValueKind::Histograms => v is Histograms,
        ValueKind::Jobs => v is Jobs,
    }
}

/// Reads the value of shape `k` that starts at `p`.
pub fn read_value(s: &[char], p: usize, k: ValueKind) -> (r: Parsed<Value>)
    requires
        p <= s@.len(),
    ensures
        lift_view(r) == param_value(s@, p as int, k),
        match r {
            Parsed::Match(v, q) => p <= q <= s@.len() && kind_of_value(k, v@),
            Parsed::Overflow(x) => p <= x <= s@.len(),
            Parsed::NoMatch => true,
        },
{
    match k {
        ValueKind::Count => match read_count_line(s, p) {
            Parsed::Match(n, q) => Parsed::Match(Value::Count(n), q),
            Parsed::NoMatch => Parsed::NoMatch,
            Parsed::Overflow(x) => Parsed::Overflow(x),
        },
        ValueKind::KiloBytes => match read_count_line(s, p) {
            Parsed::Match(n, q) => match n.checked_mul(1024) {
                Some(b) => Parsed::Match(Value::Count(b), q),
                None => Parsed::Overflow(p),
            },
            Parsed::NoMatch => Parsed::NoMatch,
            Parsed::Overflow(x) => Parsed::Overflow(x),
        },
        ValueKind::Line => {
            let q = run(s, p, CharClass::Line);
            if is_char_at(s, q, '\n') {
                Parsed::Match(Value::Text(string_of(s, p, q)), q + 1)
            } else {
                Parsed::NoMatch
            }
        },
        ValueKind::Words => match span_of(s, p, CharClass::Words) {
            Parsed::Match(w, q) => if is_char_at(s, q, '\n') {
                Parsed::Match(Value::Text(w), q + 1)
            } else {
                Parsed::NoMatch
            },
            _ => Parsed::NoMatch,
        },
        ValueKind::Table => match stats(s, p) {
            Parsed::Match(v, q) => Parsed::Match(Value::Table(v), q),
            Parsed::NoMatch => Parsed::NoMatch,
            Parsed::Overflow(x) => Parsed::Overflow(x),
        },
        ValueKind::Histograms => match brw_stats(s, p) {
            Parsed::Match(v, q) => Parsed::Match(Value::Histograms(v), q),
            Parsed::NoMatch => Parsed::NoMatch,
            Parsed::Overflow(x) => Parsed::Overflow(x),
        },
        ValueKind::Jobs => match read_job_stats(s, p) {
            Parsed::Match(v, q) => Parsed::Match(Value::Jobs(v), q),
            Parsed::NoMatch => Parsed::NoMatch,
            Parsed::Overflow(x) => Parsed::Overflow(x),
        },
    }
}

/// The shape of value that each target statistic holds.
pub open spec fn field_holds(f: TargetField, k: ValueKind) -> bool {
    match f {
        TargetField::JobStatsOst | TargetField::JobStatsMdt => k == ValueKind::Jobs,
        TargetField::Stats => k == ValueKind::Table,
        TargetField::BrwStats => k == ValueKind::Histograms,
        TargetField::FsType => k == ValueKind::Line,
        TargetField::FsNames | TargetField::RecoveryStatus => false,
        _ => k == ValueKind::Count || k == ValueKind::KiloBytes,
    }
}

pub open spec fn target_record_view(
    field: TargetField,
    kind: TargetVariant,
    target: Seq<char>,
    param: Seq<char>,
    value: ValueView,
) -> RecordView {
    RecordView::Target { field, kind, target, param, value }
}

/// Builds the record of statistic `field` of a target.
pub fn target_record(
    field: TargetField,
    kind: TargetVariant,
    target: Target,
    param: Param,
    value: Value,
    k: ValueKind,
) -> (r: Record)
    requires
        field_holds(field, k),
        kind_of_value(k, value@),
    ensures
        r@ == target_record_view(field, kind, target@, param@, value@),
{
    match value {
        Value::Count(value) => {
            let t = TargetStat { kind, param, target, value };
            let stats = match field {
                TargetField::FilesFree => TargetStats::FilesFree(t),
                TargetField::FilesTotal => TargetStats::FilesTotal(t),
                TargetField::BytesAvail => TargetStats::BytesAvail(t),
                TargetField::BytesFree => TargetStats::BytesFree(t),
                TargetField::BytesTotal => TargetStats::BytesTotal(t),
                TargetField::NumExports => TargetStats::NumExports(t),
                TargetField::TotDirty => TargetStats::TotDirty(t),
                TargetField::TotGranted => TargetStats::TotGranted(t),
                TargetField::TotPending => TargetStats::TotPending(t),
                TargetField::ContendedLocks => TargetStats::ContendedLocks(t),
                TargetField::ContentionSeconds => TargetStats::ContentionSeconds(t),
                TargetField::CtimeAgeLimit => TargetStats::CtimeAgeLimit(t),
                TargetField::EarlyLockCancel => TargetStats::EarlyLockCancel(t),
                TargetField::LockCount => TargetStats::LockCount(t),
                TargetField::LockTimeouts => TargetStats::LockTimeouts(t),
                TargetField::LockUnusedCount => TargetStats::LockUnusedCount(t),
                TargetField::LruMaxAge => TargetStats::LruMaxAge(t),
                TargetField::LruSize => TargetStats::LruSize(t),
                TargetField::MaxNolockBytes => TargetStats::MaxNolockBytes(t),
                TargetField::MaxParallelAst => TargetStats::MaxParallelAst(t),
                TargetField::ResourceCount => TargetStats::ResourceCount(t),
                TargetField::ThreadsMin => TargetStats::ThreadsMin(t),
                TargetField::ThreadsMax => TargetStats::ThreadsMax(t),
                TargetField::ThreadsStarted => TargetStats::ThreadsStarted(t),
                TargetField::RecoveryCompletedClients => TargetStats::RecoveryCompletedClients(t),
                TargetField::RecoveryConnectedClients => TargetStats::RecoveryConnectedClients(t),
                _ => TargetStats::RecoveryEvictedClients(t),
            };
            Record::Target(stats)
        },
        Value::Text(value) => Record::Target(
            TargetStats::FsType(TargetStat { kind, param, target, value }),
        ),
        Value::Table(value) => Record::Target(
            TargetStats::Stats(TargetStat { kind, param, target, value }),
        ),
        Value::Histograms(value) => Record::Target(
            TargetStats::BrwStats(TargetStat { kind, param, target, value }),
        ),
        Value::Jobs(value) => {
            let t = TargetStat { kind, param, target, value };
            if field == TargetField::JobStatsOst {
                Record::Target(TargetStats::JobStatsOst(t))
            } else {
                Record::Target(TargetStats::JobStatsMdt(t))
            }
        },
    }
}

/// A key of a target's parameter, with the statistic it names and the shape of its value.
pub struct Key {
    pub field: TargetField,
    pub name: &'static str,
    pub kind: ValueKind,
}

pub open spec fn key_view(k: Key) -> (TargetField, Seq<char>, ValueKind) {
    (k.field, k.name@, k.kind)
}

/// The record that a key found at `q` (its name followed by `=`) introduces.
pub open spec fn keyed_record(
    s: Seq<char>,
    q: int,
    kind: TargetVariant,
    target: Seq<char>,
    key: Option<(TargetField, Seq<char>, ValueKind)>,
) -> Outcome<RecordView> {
    match key {
        Some((f, name, k)) => match param_value(s, q + name.len() + 1, k) {
            Outcome::Match(v, r) => Outcome::Match(target_record_view(f, kind, target, name, v), r),
            Outcome::NoMatch => Outcome::NoMatch,
            Outcome::Overflow(x) => Outcome::Overflow(x),
        },
        None => Outcome::NoMatch,
    }
}

/// Reads the value that a key found at `q` announces and builds its record.
pub fn read_keyed_record(
    s: &[char],
    q: usize,
    kind: TargetVariant,
    target: Target,
    key: Option<Key>,
) -> (r: Parsed<Record>)
    requires
        q <= s@.len(),
        match key {
            Some(k) => q + k.name@.len() + 1 <= s.len() && field_holds(k.field, k.kind),
            None => true,
        },
    ensures
        lift_view(r) == keyed_record(
            s@,
            q as int,
            kind,
            target@,
            match key {
                Some(k) => Some(key_view(k)),
                None => None,
            },
        ),
        match r {
            Parsed::Match(_, e) => q < e <= s@.len(),
            Parsed::Overflow(x) => q <= x <= s@.len(),
            Parsed::NoMatch => true,
        },
{
    match key {
        Some(k) => {
            let start = q + k.name.unicode_len() + 1;
            match read_value(s, start, k.kind) {
                Parsed::Match(v, e) => {
                    let param = Param(String::from_str(k.name));
                    Parsed::Match(target_record(k.field, kind, target, param, v, k.kind), e)
                },
                Parsed::NoMatch => Parsed::NoMatch,
                Parsed::Overflow(x) => Parsed::Overflow(x),
            }
        },
        None => Parsed::NoMatch,
    }
}

pub open spec fn host_record_view(field: HostField, param: Seq<char>, value: ValueView) -> RecordView {
    RecordView::Host { field, param, value }
}

/// Builds the record of a host statistic that counts something.
pub fn host_count_record(field: HostField, param: Param, value: u64) -> (r: Record)
    requires
        field != HostField::HealthCheck,
    ensures
        r@ == host_record_view(field, param@, ValueView::Count(value)),
{
    let h = HostStat { param, value };
    Record::Host(
        match field {
            HostField::MemusedMax => HostStats::MemusedMax(h),
            HostField::Memused => HostStats::Memused(h),
            _ => HostStats::LNetMemUsed(h),
        },
    )
}

/// `prefix.target.`: a subsystem's path prefix, then the target name.
pub open spec fn prefixed_target(s: Seq<char>, p: int, prefix: Seq<char>) -> Outcome<Seq<char>> {
    if lit_at(s, p, prefix) && char_at(s, p + prefix.len(), '.') {
        match target(s, p + prefix.len() + 1) {
            Outcome::Match(t, q) => if char_at(s, q, '.') {
                Outcome::Match(t, q + 1)
            } else {
                Outcome::NoMatch
            },
            _ => Outcome::NoMatch,
        }
    } else {
        Outcome::NoMatch
    }
}

pub fn read_prefixed_target(s: &[char], p: usize, prefix: &str) -> (r: Parsed<Target>)
    requires
        p <= s@.len(),
    ensures
        lift_view(r) == prefixed_target(s@, p as int, prefix@),
        advances(lift_view(r), s@, p as int),
{
    if !match_lit(s, p, prefix) {
        return Parsed::NoMatch;
    }
    let a = p + prefix.unicode_len();
    if !is_char_at(s, a, '.') {
        return Parsed::NoMatch;
    }
    match span_of(s, a + 1, CharClass::Target) {
        Parsed::Match(t, q) => if is_char_at(s, q, '.') {
            Parsed::Match(Target(t), q + 1)
        } else {
            Parsed::NoMatch
        },
        _ => Parsed::NoMatch,
    }
}

pub open spec fn opt_key_view(k: Option<Key>) -> Option<(TargetField, Seq<char>, ValueKind)> {
    match k {
        Some(k) => Some(key_view(k)),
        None => None,
    }
}

/// What a caller of [`read_keyed_record`] needs of a key found at `q`.
pub open spec fn key_fits(s: &[char], q: usize, k: Option<Key>) -> bool {
    match k {
        Some(k) => q + k.name@.len() + 1 <= s.len() && field_holds(k.field, k.kind),
        None => true,
    }
}

/// The key `name=` at `q`, if it stands there.
pub fn key_if(s: &[char], q: usize, name: &'static str, field: TargetField, kind: ValueKind) -> (r:
    Option<Key>)
    requires
        q <= s@.len(),
        field_holds(field, kind),
    ensures
        r is Some <==> key_at(s@, q as int, name@),
        r is Some ==> key_view(r->0) == (field, name@, kind),
        key_fits(s, q, r),
{
    if match_key(s, q, name) {
        Some(Key { field, name, kind })
    } else {
        None
    }
}

/// The key `name=` at `p`.
pub open spec fn param_key(s: Seq<char>, p: int, name: Seq<char>) -> Outcome<Seq<char>> {
    if key_at(s, p, name) {
        Outcome::Match(name, p + name.len() + 1)
    } else {
        Outcome::NoMatch
    }
}

/// Reads the key `name=` at `p` as the parameter it names.
pub fn param(s: &[char], p: usize, name: &str) -> (r: Parsed<Param>)
    requires
        p <= s@.len(),
    ensures
        lift_view(r) == param_key(s@, p as int, name@),
{
    if match_key(s, p, name) {
        Parsed::Match(Param(String::from_str(name)), p + name.unicode_len() + 1)
    } else {
        Parsed::NoMatch
    }
}

/// A query pattern: a path prefix and a parameter name.
pub fn pattern(prefix: &str, name: &str) -> (r: String)
    ensures
        r@ == prefix@ + name@,
{
    String::from_str(prefix).concat(name)
}

/// A query pattern with a parameter name in the middle.
pub fn pattern3(prefix: &str, name: &str, suffix: &str) -> (r: String)
    ensures
        r@ == prefix@ + name@ + suffix@,
{
    String::from_str(prefix).concat(name).concat(suffix)
}

pub open spec fn strings_view(v: Seq<String>) -> Seq<Seq<char>> {
    v.map_values(|x: String| x@)
}

} // verus!
