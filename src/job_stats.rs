//! Job accounting: the embedded YAML document is cut out of the line stream here; decoding
//! it into job records is left to a structured-data decoder.
use crate::base_parsers::{char_at, is_char_at, Outcome, Parsed};
use crate::text::{char_is_alphanumeric, is_alphanumeric, match_lit, string_of, trim, trimmed};
use vstd::prelude::*;

verus! {

/// Where the embedded document that starts at `p` ends: at the first line feed that is
/// followed by an alphanumeric character (a fresh `subsystem.target.param=` line), or at
/// the end of the input.
pub open spec fn document_end(s: Seq<char>, p: int) -> int
    decreases s.len() - p,
{
    if p < 0 || p >= s.len() {
        s.len() as int
    } else if s[p] == '\n' && p + 1 < s.len() && is_alphanumeric(s[p + 1]) {
        p
    } else {
        document_end(s, p + 1)
    }
}

proof fn lemma_document_end(s: Seq<char>, p: int)
    requires
        0 <= p <= s.len(),
    ensures
        p <= document_end(s, p) <= s.len(),
        document_end(s, p) < s.len() ==> s[document_end(s, p)] == '\n',
    decreases s.len() - p,
{
    if p < s.len() && !(s[p] == '\n' && p + 1 < s.len() && is_alphanumeric(s[p + 1])) {
        lemma_document_end(s, p + 1);
    }
}

/// A document that reports no jobs: its `job_stats:` key and nothing else.
pub open spec fn reports_no_jobs(doc: Seq<char>) -> bool {
    trimmed(doc) == "job_stats:"@
}

/// The job accounting value after a `job_stats=` key: an optional line feed, then the
/// document up to the next parameter line, whose line feed is read too. `None` stands for
/// a target that reports no jobs; otherwise the document's text is kept.
pub open spec fn job_stats_document(s: Seq<char>, p: int) -> Outcome<Option<Seq<char>>> {
    let a = if char_at(s, p, '\n') {
        p + 1
    } else {
        p
    };
    let e = document_end(s, a);
    let doc = s.subrange(a, e);
    let next = if e < s.len() {
        e + 1
    } else {
        e
    };
    Outcome::Match(
        if reports_no_jobs(doc) {
            None
        } else {
            Some(doc)
        },
        next,
    )
}

/// Tests whether a document reports no jobs.
pub fn is_empty_job_list(doc: &[char]) -> (r: bool)
    ensures
        r == reports_no_jobs(doc@),
{
    let t = trim(doc);
    let n = "job_stats:".unicode_len();
    let r = t.len() == n && match_lit(t.as_slice(), 0, "job_stats:");
    proof {
        if trimmed(doc@) == "job_stats:"@ {
            assert(t@.subrange(0, n as int) =~= t@);
        }
        if r {
            assert(t@.subrange(0, n as int) =~= t@);
        }
    }
    r
}

/// Cuts the job accounting document out of the input.
pub fn read_job_stats(s: &[char], p: usize) -> (r: Parsed<Option<String>>)
    requires
        p <= s@.len(),
    ensures
        lift_jobs(r) == job_stats_document(s@, p as int),
        match r {
            Parsed::Match(_, q) => p <= q <= s@.len(),
            _ => false,
        },
{
    let a = if is_char_at(s, p, '\n') {
        p + 1
    } else {
        p
    };
    let mut e = a;
    while e < s.len() && !(s[e] == '\n' && e + 1 < s.len() && char_is_alphanumeric(s[e + 1]))
        invariant
            a <= e <= s@.len(),
            document_end(s@, a as int) == document_end(s@, e as int),
        decreases s.len() - e,
    {
        e = e + 1;
    }
    proof {
        lemma_document_end(s@, a as int);
    }
    let doc = string_of(s, a, e);
    let next = if e < s.len() {
        e + 1
    } else {
        e
    };
    let piece = s.split_at(a).1.split_at(e - a).0;
    proof {
        assert(piece@ =~= s@.subrange(a as int, e as int));
    }
    if is_empty_job_list(piece) {
        Parsed::Match(None, next)
    } else {
        Parsed::Match(Some(doc), next)
    }
}

pub open spec fn lift_jobs(r: Parsed<Option<String>>) -> Outcome<Option<Seq<char>>> {
    match r {
        Parsed::Match(v, q) => Outcome::Match(
            match v {
                Some(d) => Some(d@),
                None => None,
            },
            q as int,
        ),
        Parsed::NoMatch => Outcome::NoMatch,
        Parsed::Overflow(x) => Outcome::Overflow(x as int),
    }
}

} // verus!
