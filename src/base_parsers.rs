//! Lexical primitives: each reads a span from position `p` of a character sequence and
//! reports what it read and where it stopped, that it did not match, or that a number in
//! the span does not fit in 64 bits.
use crate::text::{
    char_is_alphanumeric, char_is_whitespace, is_alphanumeric, is_whitespace, lit_at, match_lit,
    string_of,
};
use vstd::prelude::*;

verus! {

/// The result of running a parser from some position.
#[derive(Debug, PartialEq)]
pub enum Parsed<T> {
    /// It matched, produced a value and stopped at the position given.
    Match(T, usize),
    /// It did not match; the caller may try something else at the same position.
    NoMatch,
    /// A number that starts at the position given does not fit in 64 bits.
    Overflow(usize),
}

/// The mathematical counterpart of [`Parsed`].
pub ghost enum Outcome<V> {
    Match(V, int),
    NoMatch,
    Overflow(int),
}

pub open spec fn lift<T, V>(r: Parsed<T>, f: spec_fn(T) -> V) -> Outcome<V> {
    match r {
        Parsed::Match(v, q) => Outcome::Match(f(v), q as int),
        Parsed::NoMatch => Outcome::NoMatch,
        Parsed::Overflow(e) => Outcome::Overflow(e as int),
    }
}

pub open spec fn lift_view<T: View>(r: Parsed<T>) -> Outcome<T::V> {
    lift(r, |v: T| v@)
}

/// A parser that stops inside the input and after where it started.
pub open spec fn advances<V>(o: Outcome<V>, s: Seq<char>, p: int) -> bool {
    match o {
        Outcome::Match(_, q) => p < q <= s.len(),
        Outcome::Overflow(e) => p <= e <= s.len(),
        Outcome::NoMatch => true,
    }
}

/// The classes of characters that the primitives read runs of.
#[derive(PartialEq, Eq, Structural, Clone, Copy)]
pub enum CharClass {
    /// Alphanumeric or `_`.
    Word,
    /// Alphanumeric, `_` or a space.
    Words,
    /// Alphanumeric, `_` or `-`.
    Target,
    /// An ASCII decimal digit.
    Digit,
    /// Whitespace, line ends included.
    Space,
    /// Anything but a line feed.
    Line,
}

pub open spec fn in_class(c: char, k: CharClass) -> bool {
    match k {
        CharClass::Word => is_alphanumeric(c) || c == '_',
        CharClass::Words => is_alphanumeric(c) || c == '_' || c == ' ',
        CharClass::Target => is_alphanumeric(c) || c == '_' || c == '-',
        CharClass::Digit => '0' <= c && c <= '9',
        CharClass::Space => is_whitespace(c),
        CharClass::Line => c != '\n',
    }
}

pub fn char_in_class(c: char, k: CharClass) -> (r: bool)
    ensures
        r == in_class(c, k),
{
    match k {
        CharClass::Word => char_is_alphanumeric(c) || c == '_',
        CharClass::Words => char_is_alphanumeric(c) || c == '_' || c == ' ',
        CharClass::Target => char_is_alphanumeric(c) || c == '_' || c == '-',
        CharClass::Digit => '0' <= c && c <= '9',
        CharClass::Space => char_is_whitespace(c),
        CharClass::Line => c != '\n',
    }
}

/// Where the longest run of class `k` that starts at `p` ends.
pub open spec fn run_end(s: Seq<char>, p: int, k: CharClass) -> int
    decreases s.len() - p,
{
    if 0 <= p < s.len() && in_class(s[p], k) {
        run_end(s, p + 1, k)
    } else {
        p
    }
}

pub proof fn lemma_run_end(s: Seq<char>, p: int, k: CharClass)
    requires
        0 <= p <= s.len(),
    ensures
        p <= run_end(s, p, k) <= s.len(),
        forall|i: int| p <= i < run_end(s, p, k) ==> in_class(#[trigger] s[i], k),
        run_end(s, p, k) == s.len() || !in_class(s[run_end(s, p, k)], k),
    decreases s.len() - p,
{
    if p < s.len() && in_class(s[p], k) {
        lemma_run_end(s, p + 1, k);
    }
}

/// Reads the longest run of class `k` from `p`.
pub fn run(s: &[char], p: usize, k: CharClass) -> (q: usize)
    requires
        p <= s@.len(),
    ensures
        q == run_end(s@, p as int, k),
        p <= q <= s@.len(),
{
    let mut q = p;
    while q < s.len() && char_in_class(s[q], k)
        invariant
            p <= q <= s@.len(),
            run_end(s@, p as int, k) == run_end(s@, q as int, k),
        decreases s.len() - q,
    {
        q = q + 1;
    }
    q
}

/// A run of class `k` of at least one character, as text.
pub open spec fn span(s: Seq<char>, p: int, k: CharClass) -> Outcome<Seq<char>> {
    let q = run_end(s, p, k);
    if q == p {
        Outcome::NoMatch
    } else {
        Outcome::Match(s.subrange(p, q), q)
    }
}

pub fn span_of(s: &[char], p: usize, k: CharClass) -> (r: Parsed<String>)
    requires
        p <= s@.len(),
    ensures
        lift_view(r) == span(s@, p as int, k),
        advances(lift_view(r), s@, p as int),
{
    let q = run(s, p, k);
    if q == p {
        Parsed::NoMatch
    } else {
        Parsed::Match(string_of(s, p, q), q)
    }
}

/// Alphanumeric characters and `_`.
pub open spec fn word(s: Seq<char>, p: int) -> Outcome<Seq<char>> {
    span(s, p, CharClass::Word)
}

/// Alphanumeric characters, `_` and spaces.
pub open spec fn words(s: Seq<char>, p: int) -> Outcome<Seq<char>> {
    span(s, p, CharClass::Words)
}

/// A target name: alphanumeric characters, `_` and `-`.
pub open spec fn target(s: Seq<char>, p: int) -> Outcome<Seq<char>> {
    span(s, p, CharClass::Target)
}

/// Skips whitespace, line ends included.
pub open spec fn spaces(s: Seq<char>, p: int) -> int {
    run_end(s, p, CharClass::Space)
}

/// Everything up to the next line feed, which stays unread.
pub open spec fn till_newline(s: Seq<char>, p: int) -> int {
    run_end(s, p, CharClass::Line)
}

pub open spec fn char_at(s: Seq<char>, p: int, c: char) -> bool {
    0 <= p < s.len() && s[p] == c
}

pub fn is_char_at(s: &[char], p: usize, c: char) -> (r: bool)
    ensures
        r == char_at(s@, p as int, c),
        r ==> p < s.len(),
{
    p < s.len() && s[p] == c
}

/// The value of an ASCII decimal digit.
pub open spec fn digit_value(c: char) -> nat {
    ((c as u32) - ('0' as u32)) as nat
}

/// The number that the digits `s[p..q]` write in decimal.
pub open spec fn decimal(s: Seq<char>, p: int, q: int) -> nat
    decreases q - p,
{
    if q <= p {
        0
    } else {
        decimal(s, p, q - 1) * 10 + digit_value(s[q - 1])
    }
}

/// A run of decimal digits read as a `u64`; a run whose number does not fit is an overflow.
pub open spec fn digits(s: Seq<char>, p: int) -> Outcome<u64> {
    let q = run_end(s, p, CharClass::Digit);
    if q == p {
        Outcome::NoMatch
    } else if decimal(s, p, q) > u64::MAX {
        Outcome::Overflow(p)
    } else {
        Outcome::Match(decimal(s, p, q) as u64, q)
    }
}

proof fn lemma_decimal_monotone(s: Seq<char>, p: int, i: int, q: int)
    requires
        p <= i <= q,
    ensures
        decimal(s, p, i) <= decimal(s, p, q),
    decreases q - i,
{
    if i < q {
        lemma_decimal_monotone(s, p, i, q - 1);
    }
}

/// Reads a run of decimal digits as a `u64`.
pub fn read_digits(s: &[char], p: usize) -> (r: Parsed<u64>)
    requires
        p <= s@.len(),
    ensures
        lift_view(r) == digits(s@, p as int),
        advances(lift_view(r), s@, p as int),
{
    let q = run(s, p, CharClass::Digit);
    if q == p {
        return Parsed::NoMatch;
    }
    proof {
        lemma_run_end(s@, p as int, CharClass::Digit);
    }
    let mut v: u64 = 0;
    let mut i = p;
    while i < q
        invariant
            p <= i <= q <= s@.len(),
            q == run_end(s@, p as int, CharClass::Digit),
            forall|j: int| p <= j < q ==> in_class(#[trigger] s@[j], CharClass::Digit),
            v == decimal(s@, p as int, i as int),
        decreases q - i,
    {
        let c = s[i];
        assert(in_class(s@[i as int], CharClass::Digit));
        let d = (c as u32 - '0' as u32) as u64;
        let next = match v.checked_mul(10) {
            Some(t) => t.checked_add(d),
            None => None,
        };
        match next {
            Some(n) => {
                v = n;
                i = i + 1;
            },
            None => {
                proof {
                    lemma_decimal_monotone(s@, p as int, i as int + 1, q as int);
                }
                return Parsed::Overflow(p);
            },
        }
    }
    Parsed::Match(v, q)
}

/// `lit` followed by `=`: the key of a `name=value` line.
pub open spec fn key_at(s: Seq<char>, p: int, lit: Seq<char>) -> bool {
    lit_at(s, p, lit) && char_at(s, p + lit.len(), '=')
}

pub fn match_key(s: &[char], p: usize, lit: &str) -> (r: bool)
    requires
        p <= s@.len(),
    ensures
        r == key_at(s@, p as int, lit@),
        r ==> p + lit@.len() < s.len(),
{
    let n = lit.unicode_len();
    if match_lit(s, p, lit) && n < s.len() - p {
        s[p + n] == '='
    } else {
        false
    }
}

/// A number alone on its line: digits and a line feed.
pub open spec fn count_line(s: Seq<char>, p: int) -> Outcome<u64> {
    match digits(s, p) {
        Outcome::Match(v, q) => if char_at(s, q, '\n') {
            Outcome::Match(v, q + 1)
        } else {
            Outcome::NoMatch
        },
        o => o,
    }
}

pub fn read_count_line(s: &[char], p: usize) -> (r: Parsed<u64>)
    requires
        p <= s@.len(),
    ensures
        lift_view(r) == count_line(s@, p as int),
        advances(lift_view(r), s@, p as int),
{
    match read_digits(s, p) {
        Parsed::Match(v, q) => if is_char_at(s, q, '\n') {
            Parsed::Match(v, q + 1)
        } else {
            Parsed::NoMatch
        },
        Parsed::NoMatch => Parsed::NoMatch,
        Parsed::Overflow(e) => Parsed::Overflow(e),
    }
}

} // verus!
