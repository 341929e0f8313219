//! The statistics table written back out in its own format, and the laws that tie that
//! rendering to the parser: rendering and re-reading gives back the same rows.
use crate::base_parsers::{
    char_at, decimal, digit_value, digits, in_class, run_end, span, spaces, till_newline,
    CharClass, Outcome,
};
use crate::stats_parser::{
    min_max_sum, name_count_units, reserved_word, spaced_digits, stat_line, stat_lines,
    stat_view_of, stats_table, time_header, time_line,
};
use crate::text::lit_at;
use crate::types::StatView;
use vstd::prelude::*;

verus! {

/// The ASCII digit for `d < 10`.
pub open spec fn digit_char(d: nat) -> char {
    if d == 0 {
        '0'
    } else if d == 1 {
        '1'
    } else if d == 2 {
        '2'
    } else if d == 3 {
        '3'
    } else if d == 4 {
        '4'
    } else if d == 5 {
        '5'
    } else if d == 6 {
        '6'
    } else if d == 7 {
        '7'
    } else if d == 8 {
        '8'
    } else {
        '9'
    }
}

/// `n` written in decimal, without leading zeros.
pub open spec fn decimal_text(n: nat) -> Seq<char>
    decreases n,
{
    if n < 10 {
        seq![digit_char(n)]
    } else {
        decimal_text(n / 10).push(digit_char(n % 10))
    }
}

proof fn lemma_digit_char(d: nat)
    requires
        d < 10,
    ensures
        in_class(digit_char(d), CharClass::Digit),
        digit_value(digit_char(d)) == d,
        !in_class(digit_char(d), CharClass::Space),
{
}

proof fn lemma_decimal_text(n: nat)
    ensures
        decimal_text(n).len() >= 1,
        forall|i: int|
            0 <= i < decimal_text(n).len() ==> in_class(#[trigger] decimal_text(n)[i], CharClass::Digit)
                && !in_class(decimal_text(n)[i], CharClass::Space),
    decreases n,
{
    if n < 10 {
        lemma_digit_char(n);
    } else {
        lemma_decimal_text(n / 10);
        lemma_digit_char(n % 10);
    }
}

/// Where `a + b` stands, `a` stands, and `b` after it.
pub proof fn lemma_lit_split(s: Seq<char>, p: int, a: Seq<char>, b: Seq<char>)
    requires
        lit_at(s, p, a + b),
    ensures
        lit_at(s, p, a),
        lit_at(s, p + a.len(), b),
{
    assert(s.subrange(p, p + a.len()) =~= (a + b).subrange(0, a.len() as int));
    assert((a + b).subrange(0, a.len() as int) =~= a);
    assert(s.subrange(p + a.len(), p + a.len() + b.len()) =~= (a + b).subrange(
        a.len() as int,
        (a + b).len() as int,
    ));
    assert((a + b).subrange(a.len() as int, (a + b).len() as int) =~= b);
}

proof fn lemma_lit_char(s: Seq<char>, p: int, c: char)
    requires
        lit_at(s, p, seq![c]),
    ensures
        char_at(s, p, c),
{
    assert(s.subrange(p, p + 1)[0] == c);
}

proof fn lemma_lit_index(s: Seq<char>, p: int, a: Seq<char>, i: int)
    requires
        lit_at(s, p, a),
        0 <= i < a.len(),
    ensures
        s[p + i] == a[i],
{
    assert(s.subrange(p, p + a.len())[i] == a[i]);
}

proof fn lemma_decimal_value(s: Seq<char>, p: int, n: nat)
    requires
        lit_at(s, p, decimal_text(n)),
    ensures
        decimal(s, p, p + decimal_text(n).len()) == n,
    decreases n,
{
    lemma_decimal_text(n);
    if n < 10 {
        lemma_lit_index(s, p, decimal_text(n), 0);
        lemma_digit_char(n);
        assert(decimal(s, p, p) == 0);
    } else {
        let t = decimal_text(n / 10);
        assert(decimal_text(n) =~= t + seq![digit_char(n % 10)]);
        lemma_lit_split(s, p, t, seq![digit_char(n % 10)]);
        lemma_decimal_value(s, p, n / 10);
        lemma_lit_char(s, p + t.len(), digit_char(n % 10));
        lemma_digit_char(n % 10);
        assert((n / 10) * 10 + n % 10 == n) by (nonlinear_arith);
    }
}

/// A run of class `k` goes on through characters of that class.
pub proof fn lemma_run_through(s: Seq<char>, i: int, j: int, k: CharClass)
    requires
        0 <= i <= j <= s.len(),
        forall|m: int| i <= m < j ==> in_class(#[trigger] s[m], k),
    ensures
        run_end(s, i, k) == run_end(s, j, k),
    decreases j - i,
{
    if i < j {
        lemma_run_through(s, i + 1, j, k);
    }
}

/// A run of class `k` stops before a character not of that class.
pub proof fn lemma_run_stop(s: Seq<char>, j: int, k: CharClass)
    requires
        0 <= j <= s.len(),
        j == s.len() || !in_class(s[j], k),
    ensures
        run_end(s, j, k) == j,
{
}

proof fn lemma_span_at(s: Seq<char>, p: int, w: Seq<char>, k: CharClass)
    requires
        lit_at(s, p, w),
        w.len() > 0,
        forall|i: int| 0 <= i < w.len() ==> in_class(#[trigger] w[i], k),
        p + w.len() == s.len() || !in_class(s[p + w.len()], k),
    ensures
        span(s, p, k) == Outcome::Match(w, p + w.len()),
{
    assert forall|m: int| p <= m < p + w.len() implies in_class(#[trigger] s[m], k) by {
        lemma_lit_index(s, p, w, m - p);
    }
    lemma_run_through(s, p, p + w.len(), k);
    lemma_run_stop(s, p + w.len(), k);
    assert(s.subrange(p, p + w.len()) == w);
}

/// Digits written out are read back as the number they write.
pub proof fn lemma_digits_at(s: Seq<char>, p: int, n: u64)
    requires
        lit_at(s, p, decimal_text(n as nat)),
        p + decimal_text(n as nat).len() == s.len() || !in_class(
            s[p + decimal_text(n as nat).len()],
            CharClass::Digit,
        ),
    ensures
        digits(s, p) == Outcome::Match(n, p + decimal_text(n as nat).len()),
{
    let t = decimal_text(n as nat);
    lemma_decimal_text(n as nat);
    lemma_span_at(s, p, t, CharClass::Digit);
    lemma_decimal_value(s, p, n as nat);
}

/// A single space before a digit is skipped.
proof fn lemma_space_then_digits(s: Seq<char>, q: int, n: u64)
    requires
        char_at(s, q, ' '),
        lit_at(s, q + 1, decimal_text(n as nat)),
    ensures
        spaces(s, q) == q + 1,
{
    lemma_decimal_text(n as nat);
    lemma_lit_index(s, q + 1, decimal_text(n as nat), 0);
    lemma_run_through(s, q, q + 1, CharClass::Space);
    lemma_run_stop(s, q + 1, CharClass::Space);
}

/// A space and a number, as the moments of a stat line are written.
pub open spec fn spaced_text(n: u64) -> Seq<char> {
    seq![' '] + decimal_text(n as nat)
}

proof fn lemma_spaced(s: Seq<char>, q: int, n: u64)
    requires
        lit_at(s, q, spaced_text(n)),
        q + spaced_text(n).len() == s.len() || !in_class(
            s[q + spaced_text(n).len()],
            CharClass::Digit,
        ),
    ensures
        spaced_digits(s, q) == Outcome::Match(n, q + spaced_text(n).len()),
{
    lemma_lit_split(s, q, seq![' '], decimal_text(n as nat));
    lemma_lit_char(s, q, ' ');
    lemma_space_then_digits(s, q, n);
    lemma_digits_at(s, q + 1, n);
}

/// The min, max and sum of a stat line.
pub open spec fn moments_text(v: StatView) -> Seq<char> {
    match (v.min, v.max, v.sum) {
        (Some(a), Some(b), Some(c)) => spaced_text(a) + spaced_text(b) + spaced_text(c),
        _ => Seq::empty(),
    }
}

/// The sum of squares of a stat line.
pub open spec fn sumsquare_text(v: StatView) -> Seq<char> {
    match v.sumsquare {
        Some(d) => spaced_text(d),
        None => Seq::empty(),
    }
}

/// A stat line as the table writes it: `name <count> samples [unit] [min max sum [sumsq]]`.
pub open spec fn stat_text(v: StatView) -> Seq<char> {
    v.name + seq![' '] + decimal_text(v.samples as nat) + seq![' '] + "samples"@ + seq![' ', '[']
        + v.units + seq![']'] + moments_text(v) + sumsquare_text(v) + seq!['\n']
}

/// What a row needs to be written and read back: the moments in one of the table's
/// shapes, and a name and a unit that are words, the name not one of a subsystem.
pub open spec fn renderable(v: StatView) -> bool {
    &&& v.wf()
    &&& v.name.len() > 0
    &&& forall|i: int| 0 <= i < v.name.len() ==> in_class(#[trigger] v.name[i], CharClass::Word)
    &&& !reserved_word(v.name)
    &&& v.units.len() > 0
    &&& forall|i: int|
        0 <= i < v.units.len() ==> in_class(#[trigger] v.units[i], CharClass::Word)
}

proof fn lemma_stat_line_text(s: Seq<char>, p: int, v: StatView)
    requires
        renderable(v),
        lit_at(s, p, stat_text(v)),
    ensures
        stat_line(s, p) == Outcome::Match(v, p + stat_text(v).len()),
{
    reveal_strlit("samples");
    let a = v.name;
    let c = decimal_text(v.samples as nat);
    let e = "samples"@;
    let g = v.units;
    let m = moments_text(v);
    let q = sumsquare_text(v);
    let x1 = a + seq![' '];
    let x2 = x1 + c;
    let x3 = x2 + seq![' '];
    let x4 = x3 + e;
    let x5 = x4 + seq![' ', '['];
    let x6 = x5 + g;
    let x7 = x6 + seq![']'];
    let x8 = x7 + m;
    let x9 = x8 + q;
    lemma_lit_split(s, p, x9, seq!['\n']);
    lemma_lit_split(s, p, x8, q);
    lemma_lit_split(s, p, x7, m);
    lemma_lit_split(s, p, x6, seq![']']);
    lemma_lit_split(s, p, x5, g);
    lemma_lit_split(s, p, x4, seq![' ', '[']);
    lemma_lit_split(s, p, x3, e);
    lemma_lit_split(s, p, x2, seq![' ']);
    lemma_lit_split(s, p, x1, c);
    lemma_lit_split(s, p, a, seq![' ']);
    let at1 = p + a.len();
    let at2 = at1 + 1;
    let at3 = at2 + c.len();
    let at4 = at3 + 1;
    let at5 = at4 + 7;
    let at6 = at5 + 2;
    let at7 = at6 + g.len();
    let at8 = at7 + 1;
    let at9 = at8 + m.len();
    let at10 = at9 + q.len();
    lemma_lit_char(s, at1, ' ');
    lemma_lit_char(s, at3, ' ');
    lemma_lit_index(s, at4, e, 0);
    lemma_lit_index(s, at5, seq![' ', '['], 0);
    lemma_lit_index(s, at5, seq![' ', '['], 1);
    lemma_lit_char(s, at7, ']');
    lemma_lit_char(s, at10, '\n');
    lemma_decimal_text(v.samples as nat);
    // name, count, "samples", unit
    lemma_span_at(s, p, a, CharClass::Word);
    lemma_space_then_digits(s, at1, v.samples);
    lemma_digits_at(s, at2, v.samples);
    lemma_run_through(s, at3, at4, CharClass::Space);
    lemma_run_stop(s, at4, CharClass::Space);
    lemma_run_through(s, at5, at5 + 1, CharClass::Space);
    lemma_run_stop(s, at5 + 1, CharClass::Space);
    lemma_span_at(s, at6, g, CharClass::Word);
    assert(name_count_units(s, p) == Outcome::Match((a, v.samples, g), at8));
    if v.min is Some {
        let (ma, mb, mc) = (v.min->0, v.max->0, v.sum->0);
        let ta = spaced_text(ma);
        let tb = spaced_text(mb);
        let tc = spaced_text(mc);
        lemma_lit_split(s, at8, ta + tb, tc);
        lemma_lit_split(s, at8, ta, tb);
        lemma_lit_index(s, at8, ta, 0);
        lemma_lit_index(s, at8 + ta.len(), tb, 0);
        lemma_lit_index(s, at8 + ta.len() + tb.len(), tc, 0);
        lemma_spaced(s, at8, ma);
        lemma_spaced(s, at8 + ta.len(), mb);
        if v.sumsquare is Some {
            let td = spaced_text(v.sumsquare->0);
            lemma_lit_index(s, at9, td, 0);
            lemma_spaced(s, at8 + ta.len() + tb.len(), mc);
            assert(min_max_sum(s, at8) == Outcome::Match((ma, mb, mc), at9));
            lemma_spaced(s, at9, v.sumsquare->0);
            assert(stat_line(s, p) == Outcome::Match(
                stat_view_of((a, v.samples, g), Some((ma, mb, mc)), v.sumsquare),
                at10 + 1,
            ));
        } else {
            lemma_spaced(s, at8 + ta.len() + tb.len(), mc);
            assert(min_max_sum(s, at8) == Outcome::Match((ma, mb, mc), at9));
            assert(stat_line(s, p) == Outcome::Match(
                stat_view_of((a, v.samples, g), Some((ma, mb, mc)), None),
                at10 + 1,
            ));
        }
    } else {
        assert(stat_line(s, p) == Outcome::Match(stat_view_of((a, v.samples, g), None, None), at8 + 1));
    }
}

/// One timestamp line as the table writes it: `name <secs>.<nsecs>`.
pub open spec fn time_text(name: Seq<char>, secs: u64, nsecs: u64) -> Seq<char> {
    name + seq![' '] + decimal_text(secs as nat) + seq!['.'] + decimal_text(nsecs as nat) + seq![
        '\n',
    ]
}

/// The timestamp header: snapshot, start and elapsed time.
pub open spec fn header_text(secs: u64, nsecs: u64) -> Seq<char> {
    time_text("snapshot_time"@, secs, nsecs) + time_text("start_time"@, secs, nsecs) + time_text(
        "elapsed_time"@,
        secs,
        nsecs,
    )
}

/// The rows, one line each.
pub open spec fn rows_text(rows: Seq<StatView>) -> Seq<char>
    decreases rows.len(),
{
    if rows.len() == 0 {
        Seq::empty()
    } else {
        stat_text(rows[0]) + rows_text(rows.drop_first())
    }
}

/// A statistics table as it follows its `name=` key.
pub open spec fn table_text(secs: u64, nsecs: u64, rows: Seq<StatView>) -> Seq<char> {
    seq!['\n'] + header_text(secs, nsecs) + rows_text(rows)
}

proof fn lemma_time_line_text(s: Seq<char>, p: int, name: Seq<char>, secs: u64, nsecs: u64)
    requires
        lit_at(s, p, time_text(name, secs, nsecs)),
    ensures
        time_line(s, p, name) == Outcome::Match((secs, nsecs), p + time_text(name, secs, nsecs).len()),
{
    let a = decimal_text(secs as nat);
    let b = decimal_text(nsecs as nat);
    let x1 = name + seq![' '];
    let x2 = x1 + a;
    let x3 = x2 + seq!['.'];
    let x4 = x3 + b;
    lemma_lit_split(s, p, x4, seq!['\n']);
    lemma_lit_split(s, p, x3, b);
    lemma_lit_split(s, p, x2, seq!['.']);
    lemma_lit_split(s, p, x1, a);
    lemma_lit_split(s, p, name, seq![' ']);
    let q1 = p + name.len();
    let q2 = q1 + 1 + a.len();
    let q3 = q2 + 1 + b.len();
    lemma_lit_char(s, q1, ' ');
    lemma_lit_char(s, q2, '.');
    lemma_lit_char(s, q3, '\n');
    lemma_space_then_digits(s, q1, secs);
    lemma_digits_at(s, q1 + 1, secs);
    lemma_digits_at(s, q2 + 1, nsecs);
    lemma_run_stop(s, q3, CharClass::Line);
    assert(till_newline(s, q3) == q3);
}

proof fn lemma_header_text(s: Seq<char>, p: int, secs: u64, nsecs: u64)
    requires
        lit_at(s, p, header_text(secs, nsecs)),
    ensures
        time_header(s, p) == Outcome::Match((), p + header_text(secs, nsecs).len()),
{
    let a = time_text("snapshot_time"@, secs, nsecs);
    let b = time_text("start_time"@, secs, nsecs);
    let c = time_text("elapsed_time"@, secs, nsecs);
    lemma_lit_split(s, p, a + b, c);
    lemma_lit_split(s, p, a, b);
    lemma_time_line_text(s, p, "snapshot_time"@, secs, nsecs);
    lemma_time_line_text(s, p + a.len(), "start_time"@, secs, nsecs);
    lemma_time_line_text(s, p + a.len() + b.len(), "elapsed_time"@, secs, nsecs);
}

proof fn lemma_rows_text(s: Seq<char>, p: int, rows: Seq<StatView>)
    requires
        forall|i: int| 0 <= i < rows.len() ==> renderable(#[trigger] rows[i]),
        lit_at(s, p, rows_text(rows)),
        p + rows_text(rows).len() == s.len(),
    ensures
        stat_lines(s, p) == Outcome::Match(rows, s.len() as int),
    decreases rows.len(),
{
    if rows.len() == 0 {
        lemma_run_stop(s, p, CharClass::Word);
        assert(name_count_units(s, p) is NoMatch);
        assert(rows =~= Seq::<StatView>::empty());
    } else {
        let first = stat_text(rows[0]);
        let rest = rows.drop_first();
        lemma_lit_split(s, p, first, rows_text(rest));
        assert(renderable(rows[0]));
        lemma_stat_line_text(s, p, rows[0]);
        assert forall|i: int| 0 <= i < rest.len() implies renderable(#[trigger] rest[i]) by {
            assert(rest[i] == rows[i + 1]);
        }
        lemma_rows_text(s, p + first.len(), rest);
        assert(seq![rows[0]] + rest =~= rows);
    }
}

/// Rendering a table in its own format and reading it back gives the same rows: the
/// statistics table parser is idempotent on its canonical serialization.
pub proof fn lemma_stats_table_round_trip(secs: u64, nsecs: u64, rows: Seq<StatView>)
    requires
        rows.len() > 0,
        forall|i: int| 0 <= i < rows.len() ==> renderable(#[trigger] rows[i]),
    ensures
        stats_table(table_text(secs, nsecs, rows), 0) == Outcome::Match(
            rows,
            table_text(secs, nsecs, rows).len() as int,
        ),
{
    let s = table_text(secs, nsecs, rows);
    let h = header_text(secs, nsecs);
    assert(s.subrange(0, s.len() as int) =~= s);
    lemma_lit_split(s, 0, seq!['\n'] + h, rows_text(rows));
    lemma_lit_split(s, 0, seq!['\n'], h);
    lemma_lit_char(s, 0, '\n');
    lemma_header_text(s, 1, secs, nsecs);
    lemma_rows_text(s, 1 + h.len() as int, rows);
}

/// Every row the parser reads has its moments in one of the table's shapes, and a row
/// that ends after its unit has none of them.
pub proof fn lemma_stat_line_shapes(s: Seq<char>, p: int)
    ensures
        match stat_line(s, p) {
            Outcome::Match(v, _) => v.wf(),
            _ => true,
        },
        match name_count_units(s, p) {
            Outcome::Match(h, q) => char_at(s, q, '\n') ==> stat_line(s, p) == Outcome::Match(
                StatView {
                    name: h.0,
                    units: h.2,
                    samples: h.1,
                    min: None,
                    max: None,
                    sum: None,
                    sumsquare: None,
                },
                q + 1,
            ),
            _ => true,
        },
{
}

/// A row with exactly three numbers after its unit has min, max and sum, and no sum of
/// squares.
pub proof fn lemma_stat_line_three_moments(s: Seq<char>, p: int)
    ensures
        match name_count_units(s, p) {
            Outcome::Match(h, q) => !char_at(s, q, '\n') ==> match min_max_sum(s, q) {
                Outcome::Match(m, q2) => char_at(s, q2, '\n') ==> stat_line(s, p)
                    == Outcome::Match(
                    StatView {
                        name: h.0,
                        units: h.2,
                        samples: h.1,
                        min: Some(m.0),
                        max: Some(m.1),
                        sum: Some(m.2),
                        sumsquare: None,
                    },
                    q2 + 1,
                ),
                _ => true,
            },
            _ => true,
        },
{
}

} // verus!
