//! The filesystems a management target knows: `mgs.<target>.live.<fsname>` lines, grouped
//! into one record per target.
use crate::base_parsers::{char_at, is_char_at, span_of, word, CharClass, Outcome, Parsed};
use crate::error::LustreCollectorError;
use crate::text::{lit_at, match_lit};
use crate::types::{
    fs_names_view, records_view, FsName, Param, Record, RecordView, Target, TargetField,
    TargetStat, TargetStats, TargetVariant, ValueView,
};
use crate::values::{prefixed_target, read_prefixed_target, strings_view};
use vstd::prelude::*;

verus! {

/// The query patterns for the filesystem listing.
pub fn params() -> (r: Vec<String>)
    ensures
        strings_view(r@) == seq!["mgs.*.live.*"@],
{
    let mut v: Vec<String> = Vec::new();
    v.push(String::from_str("mgs.*.live.*"));
    assert(strings_view(v@) =~= seq!["mgs.*.live.*"@]);
    v
}

/// One `mgs.<target>.live.<fsname>` line: the target and the filesystem name.
pub open spec fn fs_line(s: Seq<char>, p: int) -> Option<((Seq<char>, Seq<char>), int)> {
    match prefixed_target(s, p, "mgs"@) {
        Outcome::Match(t, q) => if lit_at(s, q, "live."@) {
            match word(s, q + "live."@.len()) {
                Outcome::Match(n, r) => if char_at(s, r, '\n') {
                    Some(((t, n), r + 1))
                } else {
                    None
                },
                _ => None,
            }
        } else {
            None
        },
        _ => None,
    }
}

fn read_fs_line(s: &[char], p: usize) -> (r: Option<((Target, String), usize)>)
    requires
        p <= s@.len(),
    ensures
        match r {
            Some(((t, n), q)) => fs_line(s@, p as int) == Some(((t@, n@), q as int)) && p < q
                <= s@.len(),
            None => fs_line(s@, p as int) is None,
        },
{
    let (t, q) = match read_prefixed_target(s, p, "mgs") {
        Parsed::Match(t, q) => (t, q),
        _ => return None,
    };
    if !match_lit(s, q, "live.") {
        return None;
    }
    match span_of(s, q + "live.".unicode_len(), CharClass::Word) {
        Parsed::Match(n, r) => if is_char_at(s, r, '\n') {
            Some(((t, n), r + 1))
        } else {
            None
        },
        _ => None,
    }
}

/// As many filesystem lines as follow one another from `p`, and where they end.
pub open spec fn fs_lines(s: Seq<char>, p: int) -> (Seq<(Seq<char>, Seq<char>)>, int)
    decreases s.len() - p,
{
    match fs_line(s, p) {
        Some((x, q)) => if p < q <= s.len() {
            let (xs, e) = fs_lines(s, q);
            (seq![x] + xs, e)
        } else {
            (seq![x], q)
        },
        None => (Seq::empty(), p),
    }
}

/// The lines without the `params` pseudo-filesystem.
pub open spec fn without_params(v: Seq<(Seq<char>, Seq<char>)>) -> Seq<(Seq<char>, Seq<char>)>
    decreases v.len(),
{
    if v.len() == 0 {
        v
    } else {
        let rest = without_params(v.drop_last());
        if v.last().1 == "params"@ {
            rest
        } else {
            rest.push(v.last())
        }
    }
}

/// The targets, each once, in the order they first appear.
pub open spec fn distinct_targets(v: Seq<(Seq<char>, Seq<char>)>) -> Seq<Seq<char>>
    decreases v.len(),
{
    if v.len() == 0 {
        Seq::empty()
    } else {
        let d = distinct_targets(v.drop_last());
        if d.contains(v.last().0) {
            d
        } else {
            d.push(v.last().0)
        }
    }
}

/// The filesystem names of target `t`, in the order they appear.
pub open spec fn names_of(v: Seq<(Seq<char>, Seq<char>)>, t: Seq<char>) -> Seq<Seq<char>>
    decreases v.len(),
{
    if v.len() == 0 {
        Seq::empty()
    } else {
        let d = names_of(v.drop_last(), t);
        if v.last().0 == t {
            d.push(v.last().1)
        } else {
            d
        }
    }
}

pub open spec fn fs_record_view(t: Seq<char>, names: Seq<Seq<char>>) -> RecordView {
    RecordView::Target {
        field: TargetField::FsNames,
        kind: TargetVariant::MGT,
        target: t,
        param: "fsnames"@,
        value: ValueView::Names(names),
    }
}

/// One record per target, holding the names of its filesystems.
pub open spec fn fs_records(v: Seq<(Seq<char>, Seq<char>)>) -> Seq<RecordView> {
    distinct_targets(v).map_values(|t: Seq<char>| fs_record_view(t, names_of(v, t)))
}

/// What the filesystem listing yields: at least one line, and nothing after the lines.
pub open spec fn mgs_fs_output(s: Seq<char>) -> Result<Seq<RecordView>, LustreCollectorError> {
    let (lines, e) = fs_lines(s, 0);
    if lines.len() == 0 {
        Err(LustreCollectorError::ContentLeft { position: 0 })
    } else if e != s.len() {
        Err(LustreCollectorError::ContentLeft { position: e as usize })
    } else {
        Ok(fs_records(without_params(lines)))
    }
}

pub open spec fn pairs_view(v: Seq<(Target, String)>) -> Seq<(Seq<char>, Seq<char>)> {
    v.map_values(|x: (Target, String)| (x.0@, x.1@))
}

fn read_fs_lines(s: &[char]) -> (r: (Vec<(Target, String)>, usize))
    ensures
        fs_lines(s@, 0) == (pairs_view(r.0@), r.1 as int),
{
    let mut out: Vec<(Target, String)> = Vec::new();
    let mut q: usize = 0;
    loop
        invariant
            q <= s@.len(),
            fs_lines(s@, 0) == ({
                let (xs, e) = fs_lines(s@, q as int);
                (pairs_view(out@) + xs, e)
            }),
        decreases s@.len() - q,
    {
        let ghost before = out@;
        match read_fs_line(s, q) {
            Some((x, r)) => {
                let ghost xv = (x.0@, x.1@);
                out.push(x);
                proof {
                    assert(pairs_view(out@) =~= pairs_view(before) + seq![xv]);
                    let (xs, e) = fs_lines(s@, r as int);
                    assert(pairs_view(before) + (seq![xv] + xs) =~= pairs_view(out@) + xs);
                }
                q = r;
            },
            None => {
                proof {
                    assert(pairs_view(out@) + Seq::<(Seq<char>, Seq<char>)>::empty() =~= pairs_view(
                        out@,
                    ));
                }
                return (out, q);
            },
        }
    }
}

fn is_params(n: &String) -> (r: bool)
    ensures
        r == (n@ == "params"@),
{
    let p = String::from_str("params");
    *n == p
}

fn drop_params(v: &Vec<(Target, String)>) -> (r: Vec<(Target, String)>)
    ensures
        pairs_view(r@) == without_params(pairs_view(v@)),
{
    let ghost all = pairs_view(v@);
    let mut out: Vec<(Target, String)> = Vec::new();
    let mut j: usize = 0;
    while j < v.len()
        invariant
            j <= v@.len() == all.len(),
            all == pairs_view(v@),
            pairs_view(out@) == without_params(all.take(j as int)),
        decreases v.len() - j,
    {
        proof {
            assert(all.take(j as int + 1).drop_last() =~= all.take(j as int));
            assert(all.take(j as int + 1).last() == all[j as int]);
        }
        if !is_params(&v[j].1) {
            let ghost before = out@;
            out.push((Target(v[j].0 .0.clone()), v[j].1.clone()));
            assert(pairs_view(out@) =~= pairs_view(before).push(all[j as int]));
        }
        j = j + 1;
    }
    assert(all.take(v@.len() as int) =~= all);
    out
}

fn distinct_of(v: &Vec<(Target, String)>) -> (r: Vec<String>)
    ensures
        strings_view(r@) == distinct_targets(pairs_view(v@)),
{
    let ghost all = pairs_view(v@);
    let mut out: Vec<String> = Vec::new();
    let mut j: usize = 0;
    while j < v.len()
        invariant
            j <= v@.len() == all.len(),
            all == pairs_view(v@),
            strings_view(out@) == distinct_targets(all.take(j as int)),
        decreases v.len() - j,
    {
        let t = &v[j].0 .0;
        let mut found = false;
        let mut i: usize = 0;
        while i < out.len()
            invariant
                i <= out@.len(),
                found <==> exists|k: int| 0 <= k < i && out@[k]@ == t@,
            decreases out.len() - i,
        {
            if out[i] == *t {
                found = true;
            }
            i = i + 1;
        }
        proof {
            assert(all.take(j as int + 1).drop_last() =~= all.take(j as int));
            assert(all.take(j as int + 1).last() == all[j as int]);
            let d = distinct_targets(all.take(j as int));
            assert(d.contains(t@) <==> found) by {
                if found {
                    let k = choose|k: int| 0 <= k < out@.len() && out@[k]@ == t@;
                    assert(d[k] == t@);
                }
                if d.contains(t@) {
                    let k = choose|k: int| 0 <= k < d.len() && d[k] == t@;
                    assert(out@[k]@ == t@);
                }
            }
        }
        if !found {
            let ghost before = out@;
            out.push(t.clone());
            assert(strings_view(out@) =~= strings_view(before).push(t@));
        }
        j = j + 1;
    }
    assert(all.take(v@.len() as int) =~= all);
    out
}

fn names_for(v: &Vec<(Target, String)>, t: &String) -> (r: Vec<FsName>)
    ensures
        fs_names_view(r@) == names_of(pairs_view(v@), t@),
{
    let ghost all = pairs_view(v@);
    let mut out: Vec<FsName> = Vec::new();
    let mut j: usize = 0;
    while j < v.len()
        invariant
            j <= v@.len() == all.len(),
            all == pairs_view(v@),
            fs_names_view(out@) == names_of(all.take(j as int), t@),
        decreases v.len() - j,
    {
        proof {
            assert(all.take(j as int + 1).drop_last() =~= all.take(j as int));
            assert(all.take(j as int + 1).last() == all[j as int]);
        }
        if v[j].0 .0 == *t {
            let ghost before = out@;
            out.push(FsName(v[j].1.clone()));
            assert(fs_names_view(out@) =~= fs_names_view(before).push(all[j as int].1));
        }
        j = j + 1;
    }
    assert(all.take(v@.len() as int) =~= all);
    out
}

/// Groups the filesystem lines into one record per target.
pub fn group_by_target(v: &Vec<(Target, String)>) -> (r: Vec<Record>)
    ensures
        records_view(r@) == fs_records(pairs_view(v@)),
{
    let targets = distinct_of(v);
    let ghost ts = strings_view(targets@);
    let mut out: Vec<Record> = Vec::new();
    let mut i: usize = 0;
    while i < targets.len()
        invariant
            i <= targets@.len(),
            ts == strings_view(targets@),
            ts == distinct_targets(pairs_view(v@)),
            records_view(out@) == ts.take(i as int).map_values(
                |t: Seq<char>| fs_record_view(t, names_of(pairs_view(v@), t)),
            ),
        decreases targets.len() - i,
    {
        let names = names_for(v, &targets[i]);
        let record = Record::Target(
            TargetStats::FsNames(
                TargetStat {
                    kind: TargetVariant::MGT,
                    param: Param(String::from_str("fsnames")),
                    target: Target(targets[i].clone()),
                    value: names,
                },
            ),
        );
        let ghost before = out@;
        assert(record@ == fs_record_view(ts[i as int], names_of(pairs_view(v@), ts[i as int])));
        out.push(record);
        assert(records_view(out@) =~= records_view(before).push(record@));
        assert(records_view(out@) =~= ts.take(i as int + 1).map_values(
            |t: Seq<char>| fs_record_view(t, names_of(pairs_view(v@), t)),
        ));
        i = i + 1;
    }
    assert(ts.take(targets@.len() as int) =~= ts);
    out
}

/// Parses the filesystem listing of the management targets.
pub fn parse(s: &[char]) -> (r: Result<Vec<Record>, LustreCollectorError>)
    ensures
        match r {
            Ok(v) => mgs_fs_output(s@) == Ok::<Seq<RecordView>, LustreCollectorError>(
                records_view(v@),
            ),
            Err(e) => mgs_fs_output(s@) == Err::<Seq<RecordView>, LustreCollectorError>(e),
        },
{
    let (lines, e) = read_fs_lines(s);
    if lines.len() == 0 {
        return Err(LustreCollectorError::ContentLeft { position: 0 });
    }
    if e != s.len() {
        return Err(LustreCollectorError::ContentLeft { position: e });
    }
    let kept = drop_params(&lines);
    Ok(group_by_target(&kept))
}

} // verus!
