//! Line-oriented text: splitting a text into lines and `key=value` pairs,
//! splitting a value into `|`-separated fields, unsigned decimal numbers, and
//! building text from literals and numbers.

use vstd::prelude::*;
use vstd::utf8::{encode_utf8, is_ascii_chars};

verus! {

/// Index of the first `c` in `s[i..end)`.
pub open spec fn find_in(s: Seq<char>, c: char, i: int, end: int) -> Option<int>
    decreases end - i,
{
    if i < 0 || i >= end || end > s.len() {
        None
    } else if s[i] == c {
        Some(i)
    } else {
        find_in(s, c, i + 1, end)
    }
}

/// A found index lies in the searched range and holds `c`; nothing before it does.
pub proof fn lemma_find_in(s: Seq<char>, c: char, i: int, end: int)
    ensures
        find_in(s, c, i, end) matches Some(j) ==> i <= j < end && end <= s.len() && s[j] == c
            && forall|k: int| i <= k < j ==> s[k] != c,
        find_in(s, c, i, end) is None && 0 <= i && end <= s.len() ==> forall|k: int|
            i <= k < end ==> s[k] != c,
    decreases end - i,
{
    if i < 0 || i >= end || end > s.len() {
    } else if s[i] == c {
    } else {
        lemma_find_in(s, c, i + 1, end);
    }
}

/// End of the line that starts at `start` and whose newline is at `nl`: a
/// carriage return right before the newline is not part of the line.
pub open spec fn line_end(s: Seq<char>, start: int, nl: int) -> int {
    if nl > start && s[nl - 1] == '\r' {
        nl - 1
    } else {
        nl
    }
}

/// The `[start, end)` ranges of the lines of `s` from `start` on: lines end at
/// `\n` or `\r\n`, and a final line needs no line ending.
pub open spec fn lines_from(s: Seq<char>, start: int) -> Seq<(int, int)>
    decreases s.len() - start,
{
    if start < 0 || start >= s.len() {
        Seq::empty()
    } else {
        match find_in(s, '\n', start, s.len() as int) {
            None => seq![(start, s.len() as int)],
            Some(nl) => if start <= nl < s.len() {
                seq![(start, line_end(s, start, nl))] + lines_from(s, nl + 1)
            } else {
                Seq::empty()
            },
        }
    }
}

/// The line ranges of a text.
pub open spec fn line_ranges(s: Seq<char>) -> Seq<(int, int)> {
    lines_from(s, 0)
}

/// The text of a range.
pub open spec fn range_text(s: Seq<char>, r: (int, int)) -> Seq<char> {
    s.subrange(r.0, r.1)
}

/// The lines of a text.
pub open spec fn text_lines(s: Seq<char>) -> Seq<Seq<char>> {
    line_ranges(s).map_values(|r: (int, int)| range_text(s, r))
}

/// Every line range is a well-formed range inside the text.
pub proof fn lemma_lines_from_bounds(s: Seq<char>, start: int)
    ensures
        forall|k: int|
            0 <= k < lines_from(s, start).len() ==> start <= (#[trigger] lines_from(s, start)[k]).0
                <= lines_from(s, start)[k].1 <= s.len(),
    decreases s.len() - start,
{
    if start < 0 || start >= s.len() {
    } else {
        lemma_find_in(s, '\n', start, s.len() as int);
        match find_in(s, '\n', start, s.len() as int) {
            None => {},
            Some(nl) => {
                lemma_lines_from_bounds(s, nl + 1);
                let rest = lines_from(s, nl + 1);
                let all = seq![(start, line_end(s, start, nl))] + rest;
                assert forall|k: int| 0 <= k < all.len() implies start <= (#[trigger] all[k]).0
                    <= all[k].1 <= s.len() by {
                    if k > 0 {
                        assert(all[k] == rest[k - 1]);
                    }
                }
            },
        }
    }
}

/// A line of text: no line break and no carriage return in it.
pub open spec fn plain_line(l: Seq<char>) -> bool {
    forall|k: int| 0 <= k < l.len() ==> #[trigger] l[k] != '\n' && l[k] != '\r'
}

/// Lines, each followed by a line break.
pub open spec fn joined_lines(ls: Seq<Seq<char>>) -> Seq<char>
    decreases ls.len(),
{
    if ls.len() == 0 {
        Seq::empty()
    } else {
        ls[0] + seq!['\n'] + joined_lines(ls.skip(1))
    }
}

/// Where the lines of `joined_lines(ls)` lie when it starts at `start`.
pub open spec fn line_spans(ls: Seq<Seq<char>>, start: int) -> Seq<(int, int)>
    decreases ls.len(),
{
    if ls.len() == 0 {
        Seq::empty()
    } else {
        seq![(start, start + ls[0].len())] + line_spans(ls.skip(1), start + ls[0].len() + 1)
    }
}

/// Writing two runs of lines one after the other writes their concatenation.
pub proof fn lemma_joined_lines_concat(a: Seq<Seq<char>>, b: Seq<Seq<char>>)
    ensures
        joined_lines(a + b) == joined_lines(a) + joined_lines(b),
    decreases a.len(),
{
    if a.len() == 0 {
        assert(a + b =~= b);
        assert(joined_lines(a) + joined_lines(b) =~= joined_lines(b));
    } else {
        assert((a + b).skip(1) =~= a.skip(1) + b);
        lemma_joined_lines_concat(a.skip(1), b);
        assert((a + b)[0] == a[0]);
        assert(joined_lines(a + b) =~= joined_lines(a) + joined_lines(b));
    }
}

/// Writing one more line appends it and its line break.
pub proof fn lemma_joined_lines_push(ls: Seq<Seq<char>>, l: Seq<char>)
    ensures
        joined_lines(ls.push(l)) == joined_lines(ls) + l + seq!['\n'],
{
    assert(ls.push(l) =~= ls + seq![l]);
    lemma_joined_lines_concat(ls, seq![l]);
    assert(seq![l].skip(1).len() == 0);
    assert(joined_lines(seq![l].skip(1)) == Seq::<char>::empty());
    assert(joined_lines(seq![l]) =~= l + seq!['\n']);
    assert(joined_lines(ls) + (l + seq!['\n']) =~= joined_lines(ls) + l + seq!['\n']);
}

/// The first `c` at or after `i` is the one at `j` when none comes before it.
pub proof fn lemma_find_first(s: Seq<char>, c: char, i: int, j: int, end: int)
    requires
        0 <= i <= j < end <= s.len(),
        s[j] == c,
        forall|k: int| i <= k < j ==> s[k] != c,
    ensures
        find_in(s, c, i, end) == Some(j),
    decreases j - i,
{
    if i < j {
        lemma_find_first(s, c, i + 1, j, end);
    }
}

/// Splitting a text made of plain lines, each ended by a line break, gives
/// back those lines.
pub proof fn lemma_lines_of_joined(s: Seq<char>, start: int, ls: Seq<Seq<char>>)
    requires
        0 <= start <= s.len(),
        s.subrange(start, s.len() as int) == joined_lines(ls),
        forall|i: int| 0 <= i < ls.len() ==> plain_line(#[trigger] ls[i]),
    ensures
        lines_from(s, start) == line_spans(ls, start),
        line_spans(ls, start).len() == ls.len(),
        forall|i: int|
            0 <= i < ls.len() ==> start <= (#[trigger] line_spans(ls, start)[i]).0
                <= line_spans(ls, start)[i].1 <= s.len()
                && s.subrange(line_spans(ls, start)[i].0, line_spans(ls, start)[i].1) == ls[i],
    decreases ls.len(),
{
    if ls.len() == 0 {
        assert(s.subrange(start, s.len() as int).len() == 0);
    } else {
        let l0 = ls[0];
        let rest = ls.skip(1);
        let t = joined_lines(ls);
        assert(t == l0 + seq!['\n'] + joined_lines(rest));
        let nl = start + l0.len();
        assert(t.len() == l0.len() + 1 + joined_lines(rest).len());
        assert(s[nl] == t[l0.len() as int]);
        assert(plain_line(ls[0]));
        assert forall|k: int| start <= k < nl implies s[k] != '\n' by {
            assert(s[k] == t[k - start]);
            assert(t[k - start] == l0[k - start]);
        }
        lemma_find_first(s, '\n', start, nl, s.len() as int);
        if nl > start {
            assert(s[nl - 1] == t[nl - 1 - start]);
            assert(t[nl - 1 - start] == l0[nl - 1 - start]);
        }
        assert(line_end(s, start, nl) == nl);
        assert(s.subrange(nl + 1, s.len() as int) =~= joined_lines(rest)) by {
            assert forall|k: int| 0 <= k < s.len() - (nl + 1) implies s.subrange(
                nl + 1,
                s.len() as int,
            )[k] == joined_lines(rest)[k] by {
                assert(s[nl + 1 + k] == t[nl + 1 + k - start]);
            }
        }
        assert forall|i: int| 0 <= i < rest.len() implies plain_line(#[trigger] rest[i]) by {
            assert(rest[i] == ls[i + 1]);
        }
        lemma_lines_of_joined(s, nl + 1, rest);
        assert(s.subrange(start, nl) =~= l0) by {
            assert forall|k: int| 0 <= k < l0.len() implies s.subrange(start, nl)[k] == l0[k] by {
                assert(s[start + k] == t[k]);
            }
        }
        let sp = line_spans(ls, start);
        let sr = line_spans(rest, nl + 1);
        assert(sp == seq![(start, nl)] + sr);
        assert forall|i: int| 0 <= i < ls.len() implies start <= (#[trigger] sp[i]).0 <= sp[i].1
            <= s.len() && s.subrange(sp[i].0, sp[i].1) == ls[i] by {
            if i > 0 {
                assert(sp[i] == sr[i - 1]);
                assert(rest[i - 1] == ls[i]);
            }
        }
    }
}

/// Ranges of `line` split at every `c` from `a` to `b` (as `str::split` does):
/// there is always at least one piece, and pieces may be empty.
pub open spec fn split_from(s: Seq<char>, c: char, a: int, b: int) -> Seq<(int, int)>
    decreases b - a,
{
    if a > b || a < 0 || b > s.len() {
        Seq::empty()
    } else {
        match find_in(s, c, a, b) {
            None => seq![(a, b)],
            Some(j) => if a <= j < b {
                seq![(a, j)] + split_from(s, c, j + 1, b)
            } else {
                Seq::empty()
            },
        }
    }
}

/// Fields joined by `|`: a separator between each two fields, none after the last.
pub open spec fn joined_fields(fs: Seq<Seq<char>>) -> Seq<char>
    decreases fs.len(),
{
    if fs.len() <= 1 {
        if fs.len() == 1 {
            fs[0]
        } else {
            Seq::empty()
        }
    } else {
        fs[0] + seq!['|'] + joined_fields(fs.skip(1))
    }
}

/// Joining one more field appends a `|` and the field.
pub proof fn lemma_joined_fields_push(fs: Seq<Seq<char>>, f: Seq<char>)
    requires
        fs.len() >= 1,
    ensures
        joined_fields(fs.push(f)) == joined_fields(fs) + seq!['|'] + f,
    decreases fs.len(),
{
    let g = fs.push(f);
    if fs.len() == 1 {
        assert(g.skip(1) =~= seq![f]);
        assert(joined_fields(g.skip(1)) == f);
        assert(joined_fields(fs) == fs[0]);
        assert(joined_fields(g) =~= joined_fields(fs) + seq!['|'] + f);
    } else {
        assert(g.skip(1) =~= fs.skip(1).push(f));
        lemma_joined_fields_push(fs.skip(1), f);
        assert(joined_fields(g) =~= joined_fields(fs) + seq!['|'] + f);
    }
}

/// Where the fields of `joined_fields(fs)` lie when it starts at `start`.
pub open spec fn field_spans(fs: Seq<Seq<char>>, start: int) -> Seq<(int, int)>
    decreases fs.len(),
{
    if fs.len() == 0 {
        Seq::empty()
    } else {
        seq![(start, start + fs[0].len())] + field_spans(fs.skip(1), start + fs[0].len() + 1)
    }
}

/// Whether a field holds no `|`.
pub open spec fn plain_field(f: Seq<char>) -> bool {
    forall|k: int| 0 <= k < f.len() ==> #[trigger] f[k] != '|'
}

/// Splitting fields joined by `|` at every `|` gives back those fields.
pub proof fn lemma_split_joined(s: Seq<char>, a: int, b: int, fs: Seq<Seq<char>>)
    requires
        fs.len() >= 1,
        0 <= a <= b <= s.len(),
        s.subrange(a, b) == joined_fields(fs),
        forall|i: int| 0 <= i < fs.len() ==> plain_field(#[trigger] fs[i]),
    ensures
        split_from(s, '|', a, b) == field_spans(fs, a),
        field_spans(fs, a).len() == fs.len(),
        forall|i: int|
            0 <= i < fs.len() ==> a <= (#[trigger] field_spans(fs, a)[i]).0 <= field_spans(fs, a)[i].1
                <= b && s.subrange(field_spans(fs, a)[i].0, field_spans(fs, a)[i].1) == fs[i],
    decreases fs.len(),
{
    let f0 = fs[0];
    let t = joined_fields(fs);
    assert(plain_field(fs[0]));
    if fs.len() == 1 {
        assert(t == f0);
        assert forall|k: int| a <= k < b implies s[k] != '|' by {
            assert(s[k] == t[k - a]);
        }
        lemma_find_in(s, '|', a, b);
        assert(field_spans(fs.skip(1), a + f0.len() + 1).len() == 0) by {
            assert(fs.skip(1).len() == 0);
        }
        assert(field_spans(fs, a) =~= seq![(a, b)]);
        assert(s.subrange(a, b) == fs[0]);
    } else {
        let rest = fs.skip(1);
        assert(t == f0 + seq!['|'] + joined_fields(rest));
        let j = a + f0.len();
        assert(t.len() == f0.len() + 1 + joined_fields(rest).len());
        assert(s[j] == t[f0.len() as int]);
        assert forall|k: int| a <= k < j implies s[k] != '|' by {
            assert(s[k] == t[k - a]);
            assert(t[k - a] == f0[k - a]);
        }
        lemma_find_first(s, '|', a, j, b);
        assert(s.subrange(j + 1, b) =~= joined_fields(rest)) by {
            assert forall|k: int| 0 <= k < b - (j + 1) implies s.subrange(j + 1, b)[k] == joined_fields(
                rest,
            )[k] by {
                assert(s[j + 1 + k] == t[j + 1 + k - a]);
            }
        }
        assert forall|i: int| 0 <= i < rest.len() implies plain_field(#[trigger] rest[i]) by {
            assert(rest[i] == fs[i + 1]);
        }
        lemma_split_joined(s, j + 1, b, rest);
        assert(s.subrange(a, j) =~= f0) by {
            assert forall|k: int| 0 <= k < f0.len() implies s.subrange(a, j)[k] == f0[k] by {
                assert(s[a + k] == t[k]);
            }
        }
        let sp = field_spans(fs, a);
        let sr = field_spans(rest, j + 1);
        assert(sp == seq![(a, j)] + sr);
        assert forall|i: int| 0 <= i < fs.len() implies a <= (#[trigger] sp[i]).0 <= sp[i].1 <= b
            && s.subrange(sp[i].0, sp[i].1) == fs[i] by {
            if i > 0 {
                assert(sp[i] == sr[i - 1]);
                assert(rest[i - 1] == fs[i]);
            }
        }
    }
}

/// Every piece of a split is a range inside the split range.
pub proof fn lemma_split_from_bounds(s: Seq<char>, c: char, a: int, b: int)
    ensures
        forall|k: int|
            0 <= k < split_from(s, c, a, b).len() ==> a <= (#[trigger] split_from(s, c, a, b)[k]).0
                <= split_from(s, c, a, b)[k].1 <= b,
    decreases b - a,
{
    if a > b || a < 0 || b > s.len() {
    } else {
        lemma_find_in(s, c, a, b);
        match find_in(s, c, a, b) {
            None => {},
            Some(j) => {
                lemma_split_from_bounds(s, c, j + 1, b);
                let rest = split_from(s, c, j + 1, b);
                let all = seq![(a, j)] + rest;
                assert forall|k: int| 0 <= k < all.len() implies a <= (#[trigger] all[k]).0
                    <= all[k].1 <= b by {
                    if k > 0 {
                        assert(all[k] == rest[k - 1]);
                    }
                }
            },
        }
    }
}

/// The value of a decimal digit.
pub open spec fn digit_value(c: char) -> nat {
    ((c as u32) - ('0' as u32)) as nat
}

/// Whether a character is a decimal digit.
pub open spec fn is_digit(c: char) -> bool {
    '0' <= c && c <= '9'
}

/// Whether every character of `s[a..b)` is a decimal digit.
pub open spec fn all_digits(s: Seq<char>, a: int, b: int) -> bool {
    forall|k: int| a <= k < b ==> is_digit(#[trigger] s[k])
}

/// The number spelled by the digits `s[a..b)`.
pub open spec fn digits_value(s: Seq<char>, a: int, b: int) -> nat
    decreases b - a,
{
    if b <= a {
        0
    } else {
        digits_value(s, a, b - 1) * 10 + digit_value(s[b - 1])
    }
}

/// The unsigned number that `str::parse` reads from `s[a..b)`: an optional
/// `+`, then one or more decimal digits.
pub open spec fn parse_unsigned(s: Seq<char>, a: int, b: int) -> Option<nat> {
    let d = if a < b && s[a] == '+' {
        a + 1
    } else {
        a
    };
    if d < b && all_digits(s, d, b) {
        Some(digits_value(s, d, b))
    } else {
        None
    }
}

/// The number of type bounded by `max` that `str::parse` reads from `s[a..b)`.
pub open spec fn parse_bounded(s: Seq<char>, a: int, b: int, max: nat) -> Option<nat> {
    match parse_unsigned(s, a, b) {
        Some(v) => if v <= max {
            Some(v)
        } else {
            None
        },
        None => None,
    }
}

/// The character of a decimal digit.
pub open spec fn digit_char(d: nat) -> char {
    if d == 0 {
        '0'
    } else if d == 1 {
        '1'
    } else if d == 2 {
        '2'
    } else if d == 3 {
        '3'
    } else if d == 4 {
        '4'
    } else if d == 5 {
        '5'
    } else if d == 6 {
        '6'
    } else if d == 7 {
        '7'
    } else if d == 8 {
        '8'
    } else {
        '9'
    }
}

/// The shortest decimal spelling of a number.
pub open spec fn decimal(n: nat) -> Seq<char>
    decreases n,
{
    if n < 10 {
        seq![digit_char(n)]
    } else {
        decimal(n / 10).push(digit_char(n % 10))
    }
}

/// A character-by-character copy of a text.
pub fn str_to_chars(s: &str) -> (r: Vec<char>)
    ensures
        r@ == s@,
{
    let n = s.unicode_len();
    let mut out: Vec<char> = Vec::new();
    let mut i: usize = 0;
    while i < n
        invariant
            n == s@.len(),
            i <= n,
            out@ == s@.subrange(0, i as int),
        decreases n - i,
    {
        let c = s.get_char(i);
        out.push(c);
        i = i + 1;
        assert(out@ == s@.subrange(0, i as int));
    }
    out
}

/// Whether `s[a..b)` spells the literal `lit`.
pub fn range_eq_str(s: &Vec<char>, a: usize, b: usize, lit: &str) -> (r: bool)
    requires
        a <= b <= s@.len(),
    ensures
        r == (s@.subrange(a as int, b as int) == lit@),
{
    let n = lit.unicode_len();
    if b - a != n {
        assert(s@.subrange(a as int, b as int).len() != lit@.len());
        return false;
    }
    let mut i: usize = 0;
    while i < n
        invariant
            n == lit@.len(),
            b - a == n,
            a <= b <= s@.len(),
            i <= n,
            forall|k: int| 0 <= k < i ==> s@[a + k] == lit@[k],
        decreases n - i,
    {
        if s[a + i] != lit.get_char(i) {
            assert(s@.subrange(a as int, b as int)[i as int] != lit@[i as int]);
            return false;
        }
        i = i + 1;
    }
    assert(s@.subrange(a as int, b as int) =~= lit@);
    true
}

/// Whether two texts are equal.
pub fn str_eq(x: &str, y: &str) -> (r: bool)
    ensures
        r == (x@ == y@),
{
    let xs = str_to_chars(x);
    let r = range_eq_str(&xs, 0, xs.len(), y);
    assert(xs@.subrange(0, xs@.len() as int) =~= x@);
    r
}

/// Index of the first `c` in `s[i..end)`.
pub fn find_char(s: &Vec<char>, c: char, i: usize, end: usize) -> (r: Option<usize>)
    requires
        i <= end <= s@.len(),
    ensures
        match r {
            Some(j) => find_in(s@, c, i as int, end as int) == Some(j as int),
            None => find_in(s@, c, i as int, end as int) is None,
        },
{
    let mut k: usize = i;
    while k < end
        invariant
            i <= k <= end <= s@.len(),
            find_in(s@, c, i as int, end as int) == find_in(s@, c, k as int, end as int),
        decreases end - k,
    {
        if s[k] == c {
            return Some(k);
        }
        k = k + 1;
    }
    None
}

/// The line ranges of a text.
pub fn lines(s: &Vec<char>) -> (r: Vec<(usize, usize)>)
    ensures
        r@.len() == line_ranges(s@).len(),
        forall|k: int|
            0 <= k < r@.len() ==> (#[trigger] r@[k]).0 as int == line_ranges(s@)[k].0 && r@[k].1 as int
                == line_ranges(s@)[k].1,
        forall|k: int| 0 <= k < r@.len() ==> (#[trigger] r@[k]).0 <= r@[k].1 <= s@.len(),
{
    let n = s.len();
    let mut out: Vec<(usize, usize)> = Vec::new();
    let mut start: usize = 0;
    let ghost total = lines_from(s@, 0);
    proof {
        lemma_lines_from_bounds(s@, 0);
    }
    while start < n
        invariant
            n == s@.len(),
            start <= n,
            total == lines_from(s@, 0),
            out@.len() + lines_from(s@, start as int).len() == total.len(),
            forall|k: int|
                0 <= k < out@.len() ==> (#[trigger] out@[k]).0 as int == total[k].0 && out@[k].1 as int
                    == total[k].1,
            forall|k: int|
                0 <= k < lines_from(s@, start as int).len() ==> lines_from(s@, start as int)[k]
                    == total[out@.len() + k],
        decreases n - start,
    {
        let ghost here = lines_from(s@, start as int);
        let found = find_char(s, '\n', start, n);
        proof {
            lemma_find_in(s@, '\n', start as int, n as int);
        }
        match found {
            None => {
                assert(here == seq![(start as int, n as int)]);
                assert(here[0] == total[out@.len() as int]);
                out.push((start, n));
                start = n;
            },
            Some(nl) => {
                let end = if nl > start && s[nl - 1] == '\r' {
                    nl - 1
                } else {
                    nl
                };
                let ghost rest = lines_from(s@, nl + 1);
                assert(here == seq![(start as int, end as int)] + rest);
                assert(here[0] == total[out@.len() as int]);
                out.push((start, end));
                assert forall|k: int| 0 <= k < rest.len() implies rest[k] == total[out@.len() + k] by {
                    assert(rest[k] == here[k + 1]);
                }
                start = nl + 1;
            },
        }
    }
    proof {
        lemma_lines_from_bounds(s@, 0);
        assert forall|k: int| 0 <= k < out@.len() implies (#[trigger] out@[k]).0 <= out@[k].1
            <= s@.len() by {
            assert(total[k].0 <= total[k].1 <= s@.len());
        }
    }
    out
}

/// The ranges of `s[a..b)` split at every `c`.
pub fn split_range(s: &Vec<char>, c: char, a: usize, b: usize) -> (r: Vec<(usize, usize)>)
    requires
        a <= b <= s@.len(),
    ensures
        r@.len() == split_from(s@, c, a as int, b as int).len(),
        forall|k: int|
            0 <= k < r@.len() ==> (#[trigger] r@[k]).0 as int == split_from(
                s@,
                c,
                a as int,
                b as int,
            )[k].0 && r@[k].1 as int == split_from(s@, c, a as int, b as int)[k].1,
        forall|k: int| 0 <= k < r@.len() ==> a <= (#[trigger] r@[k]).0 <= r@[k].1 <= b,
{
    let mut out: Vec<(usize, usize)> = Vec::new();
    let mut start: usize = a;
    let ghost total = split_from(s@, c, a as int, b as int);
    let mut done = false;
    while !done
        invariant
            a <= start <= b <= s@.len(),
            total == split_from(s@, c, a as int, b as int),
            !done ==> out@.len() + split_from(s@, c, start as int, b as int).len() == total.len(),
            done ==> out@.len() == total.len(),
            forall|k: int|
                0 <= k < out@.len() ==> (#[trigger] out@[k]).0 as int == total[k].0 && out@[k].1 as int
                    == total[k].1,
            !done ==> forall|k: int|
                0 <= k < split_from(s@, c, start as int, b as int).len() ==> split_from(
                    s@,
                    c,
                    start as int,
                    b as int,
                )[k] == total[out@.len() + k],
        decreases b - start + (if done { 0int } else { 1int }),
    {
        let ghost here = split_from(s@, c, start as int, b as int);
        let found = find_char(s, c, start, b);
        proof {
            lemma_find_in(s@, c, start as int, b as int);
        }
        match found {
            None => {
                assert(here == seq![(start as int, b as int)]);
                assert(here[0] == total[out@.len() as int]);
                out.push((start, b));
                done = true;
            },
            Some(j) => {
                let ghost rest = split_from(s@, c, j + 1, b as int);
                assert(here == seq![(start as int, j as int)] + rest);
                assert(here[0] == total[out@.len() as int]);
                out.push((start, j));
                assert forall|k: int| 0 <= k < rest.len() implies rest[k] == total[out@.len() + k] by {
                    assert(rest[k] == here[k + 1]);
                }
                start = j + 1;
            },
        }
    }
    proof {
        lemma_split_from_bounds(s@, c, a as int, b as int);
        assert forall|k: int| 0 <= k < out@.len() implies a <= (#[trigger] out@[k]).0 <= out@[k].1
            <= b by {
            assert(total[k].0 <= total[k].1);
        }
    }
    out
}

/// Digits keep their value when the range is extended by one digit.
proof fn lemma_digits_value_step(s: Seq<char>, a: int, b: int)
    requires
        a <= b,
    ensures
        digits_value(s, a, b + 1) == digits_value(s, a, b) * 10 + digit_value(s[b]),
{
}

/// The number of type bounded by `max` spelled in `s[a..b)`.
pub fn parse_number(s: &Vec<char>, a: usize, b: usize, max: u64) -> (r: Option<u64>)
    requires
        a <= b <= s@.len(),
    ensures
        match r {
            Some(v) => parse_bounded(s@, a as int, b as int, max as nat) == Some(v as nat),
            None => parse_bounded(s@, a as int, b as int, max as nat) is None,
        },
{
    let d = if a < b && s[a] == '+' {
        a + 1
    } else {
        a
    };
    if d >= b {
        return None;
    }
    let mut value: u64 = 0;
    let mut i: usize = d;
    let mut overflow = false;
    while i < b
        invariant
            d <= i <= b <= s@.len(),
            d < b,
            a <= d,
            d as int == (if a < b && s@[a as int] == '+' {
                a + 1
            } else {
                a as int
            }),
            all_digits(s@, d as int, i as int),
            !overflow ==> value as nat == digits_value(s@, d as int, i as int),
            !overflow ==> value <= max,
            overflow ==> digits_value(s@, d as int, i as int) > max,
        decreases b - i,
    {
        let c = s[i];
        if !('0' <= c && c <= '9') {
            assert(!all_digits(s@, d as int, b as int)) by {
                assert(!is_digit(s@[i as int]));
            }
            return None;
        }
        let digit = ((c as u32) - ('0' as u32)) as u64;
        proof {
            lemma_digits_value_step(s@, d as int, i as int);
        }
        if !overflow {
            if digit > max || value > (max - digit) / 10 {
                overflow = true;
                assert(value * 10 + digit > max) by (nonlinear_arith)
                    requires
                        digit > max || value > (max - digit) / 10,
                ;
            } else {
                assert(value * 10 + digit <= max) by (nonlinear_arith)
                    requires
                        value <= (max - digit) / 10,
                        digit <= max,
                ;
                value = value * 10 + digit;
            }
        } else {
            assert(digits_value(s@, d as int, i as int) * 10 + digit_value(s@[i as int]) > max)
                by (nonlinear_arith)
                requires
                    digits_value(s@, d as int, i as int) > max,
            ;
        }
        i = i + 1;
    }
    if overflow {
        None
    } else {
        Some(value)
    }
}

/// The literal spelling one decimal digit.
fn digit_str(d: u64) -> (r: &'static str)
    requires
        d < 10,
    ensures
        r@ == seq![digit_char(d as nat)],
{
    if d == 0 {
        proof {
            reveal_strlit("0");
        }
        "0"
    } else if d == 1 {
        proof {
            reveal_strlit("1");
        }
        "1"
    } else if d == 2 {
        proof {
            reveal_strlit("2");
        }
        "2"
    } else if d == 3 {
        proof {
            reveal_strlit("3");
        }
        "3"
    } else if d == 4 {
        proof {
            reveal_strlit("4");
        }
        "4"
    } else if d == 5 {
        proof {
            reveal_strlit("5");
        }
        "5"
    } else if d == 6 {
        proof {
            reveal_strlit("6");
        }
        "6"
    } else if d == 7 {
        proof {
            reveal_strlit("7");
        }
        "7"
    } else if d == 8 {
        proof {
            reveal_strlit("8");
        }
        "8"
    } else {
        proof {
            reveal_strlit("9");
        }
        "9"
    }
}

/// Append the decimal spelling of `n`.
pub fn push_decimal(out: &mut String, n: u64)
    ensures
        final(out)@ == old(out)@ + decimal(n as nat),
    decreases n,
{
    if n < 10 {
        out.append(digit_str(n));
    } else {
        push_decimal(out, n / 10);
        out.append(digit_str(n % 10));
        proof {
            assert(decimal(n as nat) == decimal((n / 10) as nat).push(digit_char((n % 10) as nat)));
        }
    }
}

/// `true` or `false`, as text.
pub open spec fn bool_text(b: bool) -> Seq<char> {
    if b {
        "true"@
    } else {
        "false"@
    }
}

/// Append `true` or `false`.
pub fn push_bool(out: &mut String, b: bool)
    ensures
        final(out)@ == old(out)@ + bool_text(b),
{
    if b {
        push_str(out, "true");
    } else {
        push_str(out, "false");
    }
}

/// The decimal spelling of a signed number.
pub open spec fn signed_decimal(n: int) -> Seq<char> {
    if n < 0 {
        seq!['-'] + decimal((-n) as nat)
    } else {
        decimal(n as nat)
    }
}

/// Append the decimal spelling of a signed number.
pub fn push_signed(out: &mut String, n: i64)
    ensures
        final(out)@ == old(out)@ + signed_decimal(n as int),
{
    if n < 0 {
        push_str(out, "-");
        proof {
            reveal_strlit("-");
        }
        let magnitude: u64 = if n == i64::MIN {
            9223372036854775808u64
        } else {
            (-n) as u64
        };
        push_decimal(out, magnitude);
        proof {
            assert(old(out)@ + "-"@ + decimal(magnitude as nat) =~= old(out)@ + signed_decimal(n as int));
        }
    } else {
        push_decimal(out, n as u64);
    }
}

/// Append a literal.
pub fn push_str(out: &mut String, s: &str)
    ensures
        final(out)@ == old(out)@ + s@,
{
    out.append(s);
}

/// Digits of a decimal spelling are digits, and they spell the number back.
pub proof fn lemma_decimal_digits(n: nat)
    ensures
        decimal(n).len() >= 1,
        all_digits(decimal(n), 0, decimal(n).len() as int),
        digits_value(decimal(n), 0, decimal(n).len() as int) == n,
        decimal(n)[0] != '+',
    decreases n,
{
    if n < 10 {
        assert(digits_value(decimal(n), 0, 1) == digits_value(decimal(n), 0, 0) * 10 + digit_value(
            decimal(n)[0],
        ));
    } else {
        lemma_decimal_digits(n / 10);
        let p = decimal(n / 10);
        let q = p.push(digit_char(n % 10));
        assert forall|k: int| 0 <= k < q.len() implies is_digit(#[trigger] q[k]) by {
            if k < p.len() {
                assert(q[k] == p[k]);
            }
        }
        lemma_digits_value_prefix(q, p, p.len() as int);
        assert(digits_value(q, 0, q.len() as int) == digits_value(q, 0, p.len() as int) * 10
            + digit_value(q[p.len() as int]));
    }
}

/// A decimal spelling is a non-empty plain line.
pub proof fn lemma_decimal_plain(n: nat)
    ensures
        decimal(n).len() > 0,
        plain_line(decimal(n)),
        forall|k: int| 0 <= k < decimal(n).len() ==> #[trigger] decimal(n)[k] != '=' && decimal(n)[k]
            != '|',
{
    lemma_decimal_digits(n);
    let d = decimal(n);
    assert forall|k: int| 0 <= k < d.len() implies #[trigger] d[k] != '\n' && d[k] != '\r' by {
        assert(is_digit(d[k]));
    }
    assert forall|k: int| 0 <= k < d.len() implies #[trigger] d[k] != '=' && d[k] != '|' by {
        assert(is_digit(d[k]));
    }
}

/// Digits of a prefix spell the same number inside a longer text.
pub proof fn lemma_digits_value_prefix(q: Seq<char>, p: Seq<char>, len: int)
    requires
        0 <= len <= p.len(),
        len <= q.len(),
        forall|k: int| 0 <= k < len ==> q[k] == p[k],
    ensures
        digits_value(q, 0, len) == digits_value(p, 0, len),
    decreases len,
{
    if len > 0 {
        lemma_digits_value_prefix(q, p, len - 1);
    }
}

/// Digits keep their value when shifted to another place of a text.
pub proof fn lemma_digits_value_shift(s: Seq<char>, t: Seq<char>, a: int, b: int, off: int)
    requires
        a <= b,
        forall|k: int| a <= k < b ==> s[k] == t[k + off],
    ensures
        digits_value(s, a, b) == digits_value(t, a + off, b + off),
    decreases b - a,
{
    if a < b {
        lemma_digits_value_shift(s, t, a, b - 1, off);
    }
}

/// A decimal spelling placed in a text parses back to its number.
pub proof fn lemma_parse_decimal(s: Seq<char>, a: int, n: nat, max: nat)
    requires
        0 <= a,
        a + decimal(n).len() <= s.len(),
        s.subrange(a, a + decimal(n).len()) == decimal(n),
        n <= max,
    ensures
        parse_bounded(s, a, a + decimal(n).len(), max) == Some(n),
{
    lemma_decimal_digits(n);
    let d = decimal(n);
    let b = a + d.len();
    assert(s[a] == d[0]);
    assert forall|k: int| a <= k < b implies is_digit(#[trigger] s[k]) by {
        assert(s[k] == d[k - a]);
    }
    lemma_digits_value_shift(d, s, 0, d.len() as int, a);
}

/// Ten to the power `k`.
pub open spec fn pow10(k: nat) -> nat
    decreases k,
{
    if k == 0 {
        1
    } else {
        10 * pow10((k - 1) as nat)
    }
}

/// A decimal spelling is ASCII, and a number below `10^k` takes at most `k`
/// digits (at least one).
pub proof fn lemma_decimal_ascii_len(n: nat, k: nat)
    requires
        k >= 1,
        n < pow10(k),
    ensures
        is_ascii_chars(decimal(n)),
        decimal(n).len() <= k,
    decreases n,
{
    lemma_decimal_digits(n);
    let d = decimal(n);
    assert forall|i: int| 0 <= i < d.len() implies '\0' <= #[trigger] d[i] <= '\u{7f}' by {
        assert(is_digit(d[i]));
    }
    if n >= 10 {
        assert(k >= 2) by {
            if k == 1 {
                assert(pow10(1) == 10 * pow10(0));
            }
        }
        assert(pow10(k) == 10 * pow10((k - 1) as nat));
        lemma_decimal_ascii_len(n / 10, (k - 1) as nat);
    }
}

/// A decimal spelling of a byte is ASCII of at most three digits.
pub proof fn lemma_decimal_u8(n: nat)
    requires
        n <= 255,
    ensures
        is_ascii_chars(decimal(n)),
        decimal(n).len() <= 3,
{
    reveal_with_fuel(pow10, 4);
    lemma_decimal_ascii_len(n, 3);
}

/// A decimal spelling of a 64-bit number is ASCII of at most twenty digits.
pub proof fn lemma_decimal_u64(n: nat)
    requires
        n <= u64::MAX,
    ensures
        is_ascii_chars(decimal(n)),
        decimal(n).len() <= 20,
{
    reveal_with_fuel(pow10, 21);
    assert(pow10(20) == 100000000000000000000);
    lemma_decimal_ascii_len(n, 20);
}

/// Lines of ASCII text, each at most `w` characters, join into ASCII text
/// of at most `(w + 1)` characters per line.
pub proof fn lemma_joined_lines_ascii(ls: Seq<Seq<char>>, w: nat)
    requires
        forall|i: int| 0 <= i < ls.len() ==> is_ascii_chars(#[trigger] ls[i]) && ls[i].len() <= w,
    ensures
        is_ascii_chars(joined_lines(ls)),
        joined_lines(ls).len() <= ls.len() * (w + 1),
    decreases ls.len(),
{
    if ls.len() > 0 {
        let rest = ls.skip(1);
        assert forall|i: int| 0 <= i < rest.len() implies is_ascii_chars(#[trigger] rest[i])
            && rest[i].len() <= w by {
            assert(rest[i] == ls[i + 1]);
        }
        lemma_joined_lines_ascii(rest, w);
        let head = ls[0] + seq!['\n'];
        let j = joined_lines(ls);
        assert(j == head + joined_lines(rest));
        assert(is_ascii_chars(ls[0]));
        assert forall|i: int| 0 <= i < j.len() implies '\0' <= #[trigger] j[i] <= '\u{7f}' by {
            if i < ls[0].len() {
                assert(j[i] == ls[0][i]);
            } else if i > ls[0].len() {
                assert(j[i] == joined_lines(rest)[i - head.len()]);
            }
        }
        let n = ls.len() as int;
        assert((n - 1) * (w + 1) + (w + 1) == n * (w + 1)) by (nonlinear_arith);
    }
}

/// An ASCII text has one UTF-8 byte per character.
pub proof fn lemma_ascii_byte_len(s: Seq<char>)
    requires
        is_ascii_chars(s),
    ensures
        encode_utf8(s).len() == s.len(),
{
    vstd::utf8::is_ascii_chars_encode_utf8(s);
}

/// Two ASCII texts put together are ASCII.
pub proof fn lemma_ascii_concat(a: Seq<char>, b: Seq<char>)
    requires
        is_ascii_chars(a),
        is_ascii_chars(b),
    ensures
        is_ascii_chars(a + b),
{
    let c = a + b;
    assert forall|i: int| 0 <= i < c.len() implies '\0' <= #[trigger] c[i] <= '\u{7f}' by {
        if i < a.len() {
            assert(c[i] == a[i]);
        } else {
            assert(c[i] == b[i - a.len()]);
        }
    }
}

/// ASCII fields joined by `|` are ASCII.
pub proof fn lemma_joined_fields_ascii(fs: Seq<Seq<char>>)
    requires
        forall|i: int| 0 <= i < fs.len() ==> is_ascii_chars(#[trigger] fs[i]),
    ensures
        is_ascii_chars(joined_fields(fs)),
    decreases fs.len(),
{
    if fs.len() > 1 {
        let rest = fs.skip(1);
        assert forall|i: int| 0 <= i < rest.len() implies is_ascii_chars(#[trigger] rest[i]) by {
            assert(rest[i] == fs[i + 1]);
        }
        lemma_joined_fields_ascii(rest);
        assert(is_ascii_chars(fs[0]));
        assert(is_ascii_chars(seq!['|']));
        lemma_ascii_concat(fs[0], seq!['|']);
        lemma_ascii_concat(fs[0] + seq!['|'], joined_fields(rest));
    } else if fs.len() == 1 {
        assert(is_ascii_chars(fs[0]));
    }
}

} // verus!
