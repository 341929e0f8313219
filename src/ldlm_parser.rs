//! Lock manager namespaces: `ldlm.namespaces.{mdt-,filter-}<target>_UUID.<param>=<n>`.
use crate::base_parsers::{
    advances, char_at, count_line, key_at, lift_view, read_count_line, span_of, target,
    CharClass, Outcome, Parsed,
};
use crate::text::{lit_at, match_lit, string_of};
use crate::types::{Param, Record, RecordView, Target, TargetField, TargetVariant};
use crate::values::{
    key_fits, key_if, keyed_record, opt_key_view, pattern, read_keyed_record, strings_view, Key,
    ValueKind,
};
use vstd::prelude::*;

verus! {

pub const CONTENDED_LOCKS: &'static str = "contended_locks";

pub const CONTENTION_SECONDS: &'static str = "contention_seconds";

pub const CTIME_AGE_LIMIT: &'static str = "ctime_age_limit";

pub const EARLY_LOCK_CANCEL: &'static str = "early_lock_cancel";

pub const LOCK_COUNT: &'static str = "lock_count";

pub const LOCK_TIMEOUTS: &'static str = "lock_timeouts";

pub const LOCK_UNUSED_COUNT: &'static str = "lock_unused_count";

pub const LRU_MAX_AGE: &'static str = "lru_max_age";

pub const LRU_SIZE: &'static str = "lru_size";

pub const MAX_NOLOCK_BYTES: &'static str = "max_nolock_bytes";

pub const MAX_PARALLEL_AST: &'static str = "max_parallel_ast";

pub const RESOURCE_COUNT: &'static str = "resource_count";

/// The lock manager parameters, in the order they are queried.
pub open spec fn ldlm_stats() -> Seq<Seq<char>> {
    seq![
        CONTENDED_LOCKS@,
        CONTENTION_SECONDS@,
        CTIME_AGE_LIMIT@,
        EARLY_LOCK_CANCEL@,
        LOCK_COUNT@,
        LOCK_TIMEOUTS@,
        LOCK_UNUSED_COUNT@,
        LRU_MAX_AGE@,
        LRU_SIZE@,
        MAX_NOLOCK_BYTES@,
        MAX_PARALLEL_AST@,
        RESOURCE_COUNT@,
    ]
}

pub open spec fn ldlm_pattern_prefix() -> Seq<char> {
    "ldlm.namespaces.{mdt-,filter-}*."@
}

/// The query patterns for the lock manager parameters.
pub fn ldlm_params() -> (r: Vec<String>)
    ensures
        strings_view(r@) == ldlm_stats().map_values(|n: Seq<char>| ldlm_pattern_prefix() + n),
{
    let prefix = "ldlm.namespaces.{mdt-,filter-}*.";
    let mut v: Vec<String> = Vec::new();
    v.push(pattern(prefix, CONTENDED_LOCKS));
    v.push(pattern(prefix, CONTENTION_SECONDS));
    v.push(pattern(prefix, CTIME_AGE_LIMIT));
    v.push(pattern(prefix, EARLY_LOCK_CANCEL));
    v.push(pattern(prefix, LOCK_COUNT));
    v.push(pattern(prefix, LOCK_TIMEOUTS));
    v.push(pattern(prefix, LOCK_UNUSED_COUNT));
    v.push(pattern(prefix, LRU_MAX_AGE));
    v.push(pattern(prefix, LRU_SIZE));
    v.push(pattern(prefix, MAX_NOLOCK_BYTES));
    v.push(pattern(prefix, MAX_PARALLEL_AST));
    v.push(pattern(prefix, RESOURCE_COUNT));
    assert(strings_view(v@) =~= ldlm_stats().map_values(|n: Seq<char>| ldlm_pattern_prefix() + n));
    v
}

/// Where `lit` first stands in `t` at or after `k`, or -1.
pub open spec fn find_lit(t: Seq<char>, lit: Seq<char>, k: int) -> int
    decreases t.len() - k,
{
    if k < 0 || k >= t.len() || k + lit.len() > t.len() {
        -1
    } else if lit_at(t, k, lit) {
        k
    } else {
        find_lit(t, lit, k + 1)
    }
}

proof fn lemma_find_lit(t: Seq<char>, lit: Seq<char>, k: int)
    requires
        0 <= k,
    ensures
        find_lit(t, lit, k) == -1 || (k <= find_lit(t, lit, k) && find_lit(t, lit, k) + lit.len()
            <= t.len()),
    decreases t.len() - k,
{
    if k < t.len() && !(k + lit.len() > t.len()) && !lit_at(t, k, lit) {
        lemma_find_lit(t, lit, k + 1);
    }
}

fn find(t: &[char], lit: &str, k: usize) -> (r: Option<usize>)
    requires
        k <= t@.len(),
    ensures
        match r {
            Some(i) => find_lit(t@, lit@, k as int) == i as int && i + lit@.len() <= t.len(),
            None => find_lit(t@, lit@, k as int) == -1,
        },
{
    let n = lit.unicode_len();
    let mut i = k;
    while i < t.len() && n <= t.len() - i
        invariant
            k <= i <= t.len(),
            n == lit@.len(),
            find_lit(t@, lit@, k as int) == find_lit(t@, lit@, i as int),
        decreases t.len() - i,
    {
        if match_lit(t, i, lit) {
            return Some(i);
        }
        i = i + 1;
    }
    None
}

/// The name before the one `_UUID` in a namespace's target; none if `_UUID` does not stand
/// in it exactly once.
pub open spec fn uuid_prefix(t: Seq<char>) -> Option<Seq<char>> {
    let i = find_lit(t, "_UUID"@, 0);
    if i < 0 {
        None
    } else if find_lit(t, "_UUID"@, i + "_UUID"@.len()) >= 0 {
        None
    } else {
        Some(t.subrange(0, i))
    }
}

fn read_uuid_prefix(t: &[char]) -> (r: Option<String>)
    ensures
        match r {
            Some(y) => uuid_prefix(t@) == Some(y@),
            None => uuid_prefix(t@) is None,
        },
{
    match find(t, "_UUID", 0) {
        Some(i) => {
            proof {
                lemma_find_lit(t@, "_UUID"@, 0);
            }
            let after = i + "_UUID".unicode_len();
            if find(t, "_UUID", after).is_some() {
                None
            } else {
                Some(string_of(t, 0, i))
            }
        },
        None => None,
    }
}

/// The target of a lock manager namespace, up to the `.` before the parameter.
pub open spec fn ldlm_namespace_target(s: Seq<char>, p: int) -> Outcome<Seq<char>> {
    if !lit_at(s, p, "ldlm.namespaces."@) {
        Outcome::NoMatch
    } else {
        let a = p + "ldlm.namespaces."@.len();
        let b = if lit_at(s, a, "mdt-"@) {
            a + "mdt-"@.len()
        } else if lit_at(s, a, "filter-"@) {
            a + "filter-"@.len()
        } else {
            -1
        };
        if b < 0 {
            Outcome::NoMatch
        } else {
            match target(s, b) {
                Outcome::Match(t, q) => match uuid_prefix(t) {
                    Some(y) => if char_at(s, q, '.') {
                        Outcome::Match(y, q + 1)
                    } else {
                        Outcome::NoMatch
                    },
                    None => Outcome::NoMatch,
                },
                _ => Outcome::NoMatch,
            }
        }
    }
}

/// Reads the target of a lock manager namespace.
pub fn ldlm_target(s: &[char], p: usize) -> (r: Parsed<Target>)
    requires
        p <= s@.len(),
    ensures
        lift_view(r) == ldlm_namespace_target(s@, p as int),
        advances(lift_view(r), s@, p as int),
{
    if !match_lit(s, p, "ldlm.namespaces.") {
        return Parsed::NoMatch;
    }
    let a = p + "ldlm.namespaces.".unicode_len();
    let b = if match_lit(s, a, "mdt-") {
        a + "mdt-".unicode_len()
    } else if match_lit(s, a, "filter-") {
        a + "filter-".unicode_len()
    } else {
        return Parsed::NoMatch;
    };
    match span_of(s, b, CharClass::Target) {
        Parsed::Match(_, q) => {
            let piece = s.split_at(b).1.split_at(q - b).0;
            proof {
                assert(piece@ =~= s@.subrange(b as int, q as int));
            }
            match read_uuid_prefix(piece) {
                Some(y) => if q < s.len() && s[q] == '.' {
                    Parsed::Match(Target(y), q + 1)
                } else {
                    Parsed::NoMatch
                },
                None => Parsed::NoMatch,
            }
        },
        _ => Parsed::NoMatch,
    }
}

/// The lock manager key that stands at `q`.
pub open spec fn ldlm_key(s: Seq<char>, q: int) -> Option<(TargetField, Seq<char>, ValueKind)> {
    if key_at(s, q, CONTENDED_LOCKS@) {
        Some((TargetField::ContendedLocks, CONTENDED_LOCKS@, ValueKind::Count))
    } else if key_at(s, q, CONTENTION_SECONDS@) {
        Some((TargetField::ContentionSeconds, CONTENTION_SECONDS@, ValueKind::Count))
    } else if key_at(s, q, CTIME_AGE_LIMIT@) {
        Some((TargetField::CtimeAgeLimit, CTIME_AGE_LIMIT@, ValueKind::Count))
    } else if key_at(s, q, EARLY_LOCK_CANCEL@) {
        Some((TargetField::EarlyLockCancel, EARLY_LOCK_CANCEL@, ValueKind::Count))
    } else if key_at(s, q, LOCK_COUNT@) {
        Some((TargetField::LockCount, LOCK_COUNT@, ValueKind::Count))
    } else if key_at(s, q, LOCK_TIMEOUTS@) {
        Some((TargetField::LockTimeouts, LOCK_TIMEOUTS@, ValueKind::Count))
    } else if key_at(s, q, LOCK_UNUSED_COUNT@) {
        Some((TargetField::LockUnusedCount, LOCK_UNUSED_COUNT@, ValueKind::Count))
    } else if key_at(s, q, LRU_MAX_AGE@) {
        Some((TargetField::LruMaxAge, LRU_MAX_AGE@, ValueKind::Count))
    } else if key_at(s, q, LRU_SIZE@) {
        Some((TargetField::LruSize, LRU_SIZE@, ValueKind::Count))
    } else if key_at(s, q, MAX_NOLOCK_BYTES@) {
        Some((TargetField::MaxNolockBytes, MAX_NOLOCK_BYTES@, ValueKind::Count))
    } else if key_at(s, q, MAX_PARALLEL_AST@) {
        Some((TargetField::MaxParallelAst, MAX_PARALLEL_AST@, ValueKind::Count))
    } else if key_at(s, q, RESOURCE_COUNT@) {
        Some((TargetField::ResourceCount, RESOURCE_COUNT@, ValueKind::Count))
    } else {
        None
    }
}

fn find_ldlm_key(s: &[char], q: usize) -> (r: Option<Key>)
    requires
        q <= s@.len(),
    ensures
        opt_key_view(r) == ldlm_key(s@, q as int),
        key_fits(s, q, r),
{
    let k = key_if(s, q, CONTENDED_LOCKS, TargetField::ContendedLocks, ValueKind::Count);
    if k.is_some() {
        return k;
    }
    let k = key_if(s, q, CONTENTION_SECONDS, TargetField::ContentionSeconds, ValueKind::Count);
    if k.is_some() {
        return k;
    }
    let k = key_if(s, q, CTIME_AGE_LIMIT, TargetField::CtimeAgeLimit, ValueKind::Count);
    if k.is_some() {
        return k;
    }
    let k = key_if(s, q, EARLY_LOCK_CANCEL, TargetField::EarlyLockCancel, ValueKind::Count);
    if k.is_some() {
        return k;
    }
    let k = key_if(s, q, LOCK_COUNT, TargetField::LockCount, ValueKind::Count);
    if k.is_some() {
        return k;
    }
    let k = key_if(s, q, LOCK_TIMEOUTS, TargetField::LockTimeouts, ValueKind::Count);
    if k.is_some() {
        return k;
    }
    let k = key_if(s, q, LOCK_UNUSED_COUNT, TargetField::LockUnusedCount, ValueKind::Count);
    if k.is_some() {
        return k;
    }
    let k = key_if(s, q, LRU_MAX_AGE, TargetField::LruMaxAge, ValueKind::Count);
    if k.is_some() {
        return k;
    }
    let k = key_if(s, q, LRU_SIZE, TargetField::LruSize, ValueKind::Count);
    if k.is_some() {
        return k;
    }
    let k = key_if(s, q, MAX_NOLOCK_BYTES, TargetField::MaxNolockBytes, ValueKind::Count);
    if k.is_some() {
        return k;
    }
    let k = key_if(s, q, MAX_PARALLEL_AST, TargetField::MaxParallelAst, ValueKind::Count);
    if k.is_some() {
        return k;
    }
    key_if(s, q, RESOURCE_COUNT, TargetField::ResourceCount, ValueKind::Count)
}

/// One lock manager record; lock namespaces are reported as object storage targets.
pub open spec fn ldlm_record(s: Seq<char>, p: int) -> Outcome<RecordView> {
    match ldlm_namespace_target(s, p) {
        Outcome::Match(t, q) => keyed_record(s, q, TargetVariant::OST, t, ldlm_key(s, q)),
        _ => Outcome::NoMatch,
    }
}

/// The lock manager key at `q` and its number: `contended_locks=32\n`.
pub open spec fn ldlm_stat_line(s: Seq<char>, q: int) -> Outcome<(Seq<char>, u64)> {
    match ldlm_key(s, q) {
        Some((_, name, _)) => match count_line(s, q + name.len() + 1) {
            Outcome::Match(n, e) => Outcome::Match((name, n), e),
            Outcome::NoMatch => Outcome::NoMatch,
            Outcome::Overflow(x) => Outcome::Overflow(x),
        },
        None => Outcome::NoMatch,
    }
}

/// Reads a lock manager key and its number.
pub fn ldlm_stat(s: &[char], q: usize) -> (r: Parsed<(Param, u64)>)
    requires
        q <= s@.len(),
    ensures
        lift_view(r) == ldlm_stat_line(s@, q as int),
{
    match find_ldlm_key(s, q) {
        Some(k) => match read_count_line(s, q + k.name.unicode_len() + 1) {
            Parsed::Match(n, e) => Parsed::Match((Param(String::from_str(k.name)), n), e),
            Parsed::NoMatch => Parsed::NoMatch,
            Parsed::Overflow(x) => Parsed::Overflow(x),
        },
        None => Parsed::NoMatch,
    }
}

/// Reads one lock manager record.
pub fn parse(s: &[char], p: usize) -> (r: Parsed<Record>)
    requires
        p <= s@.len(),
    ensures
        lift_view(r) == ldlm_record(s@, p as int),
        advances(lift_view(r), s@, p as int),
{
    match ldlm_target(s, p) {
        Parsed::Match(t, q) => {
            let k = find_ldlm_key(s, q);
            read_keyed_record(s, q, TargetVariant::OST, t, k)
        },
        _ => Parsed::NoMatch,
    }
}

} // verus!
