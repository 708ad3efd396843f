//! Reading `key=value` records: every line of a record holds one key, an
//! `=`, and a value; keys come from a closed list, and each key may appear
//! at most once unless it is declared repeatable.

use vstd::prelude::*;
use vstd::utf8::is_ascii_chars;
use crate::text::{
    find_in, find_char, joined_lines, lemma_ascii_concat, lemma_find_first, lemma_find_in,
    lemma_joined_lines_ascii, lemma_lines_of_joined, line_ranges, line_spans, plain_line,
    range_eq_str,
};

verus! {

/// The `=` of a `key=value` line, when both key and value are non-empty.
pub open spec fn pair_split(s: Seq<char>, r: (int, int)) -> Option<int> {
    match find_in(s, '=', r.0, r.1) {
        Some(j) => if r.0 < j && j + 1 < r.1 {
            Some(j)
        } else {
            None
        },
        None => None,
    }
}

/// The index of the key spelled by `s[a..b)` in `keys`.
pub open spec fn key_index(s: Seq<char>, a: int, b: int, keys: Seq<Seq<char>>) -> Option<int> {
    if exists|k: int| 0 <= k < keys.len() && keys[k] == s.subrange(a, b) {
        Some(choose|k: int| 0 <= k < keys.len() && keys[k] == s.subrange(a, b))
    } else {
        None
    }
}

/// Outcome of reading the lines of a record in order.
pub enum FieldScan {
    /// For each key, the value ranges found for it, in line order.
    Fine(Seq<Seq<(int, int)>>),
    /// A line without a non-empty key, an `=`, and a non-empty value.
    Invalid,
    /// A line whose key is not in the list.
    Unknown,
    /// A second line for a key that may appear only once.
    Duplicate,
}

/// Read the first `n` lines in order, stopping at the first bad line.
pub open spec fn field_scan(
    s: Seq<char>,
    lines: Seq<(int, int)>,
    keys: Seq<Seq<char>>,
    repeatable: Seq<bool>,
    n: nat,
) -> FieldScan
    decreases n,
{
    if n == 0 {
        FieldScan::Fine(Seq::new(keys.len(), |k: int| Seq::<(int, int)>::empty()))
    } else {
        match field_scan(s, lines, keys, repeatable, (n - 1) as nat) {
            FieldScan::Fine(slots) => {
                let r = lines[n - 1];
                match pair_split(s, r) {
                    None => FieldScan::Invalid,
                    Some(j) => match key_index(s, r.0, j, keys) {
                        None => FieldScan::Unknown,
                        Some(k) => if slots[k].len() > 0 && !repeatable[k] {
                            FieldScan::Duplicate
                        } else {
                            FieldScan::Fine(slots.update(k, slots[k].push((j + 1, r.1))))
                        },
                    },
                }
            },
            other => other,
        }
    }
}

/// Whether every line has a non-empty key, an `=`, and a non-empty value.
pub open spec fn all_pairs(s: Seq<char>, lines: Seq<(int, int)>) -> bool {
    forall|i: int| 0 <= i < lines.len() ==> (#[trigger] pair_split(s, lines[i])) is Some
}

/// Why reading a record's lines stopped.
#[derive(Clone, Copy, Debug, PartialEq, Eq, Structural)]
pub enum ScanError {
    Invalid,
    Unknown,
    Duplicate,
}

/// The `=` of one `key=value` line, when both sides are non-empty.
pub fn split_pair(s: &Vec<char>, a: usize, b: usize) -> (r: Option<usize>)
    requires
        a <= b <= s@.len(),
    ensures
        match r {
            Some(j) => pair_split(s@, (a as int, b as int)) == Some(j as int) && a < j && j + 1
                < b,
            None => pair_split(s@, (a as int, b as int)) is None,
        },
{
    match find_char(s, '=', a, b) {
        Some(j) => {
            proof {
                lemma_find_in(s@, '=', a as int, b as int);
            }
            if a < j && j + 1 < b {
                Some(j)
            } else {
                None
            }
        },
        None => None,
    }
}

/// Whether every line is a well-formed `key=value` pair.
pub fn check_all_pairs(s: &Vec<char>, lines: &Vec<(usize, usize)>) -> (r: bool)
    requires
        forall|k: int| 0 <= k < lines@.len() ==> (#[trigger] lines@[k]).0 <= lines@[k].1 <= s@.len(),
    ensures
        r == all_pairs(s@, range_seq(lines@)),
{
    let mut i: usize = 0;
    while i < lines.len()
        invariant
            i <= lines@.len(),
            forall|k: int| 0 <= k < lines@.len() ==> (#[trigger] lines@[k]).0 <= lines@[k].1 <= s@.len(),
            forall|k: int| 0 <= k < i ==> (#[trigger] pair_split(s@, range_seq(lines@)[k])) is Some,
        decreases lines@.len() - i,
    {
        let (a, b) = lines[i];
        if split_pair(s, a, b).is_none() {
            assert(range_seq(lines@)[i as int] == (a as int, b as int));
            return false;
        }
        assert(range_seq(lines@)[i as int] == (a as int, b as int));
        i = i + 1;
    }
    true
}

/// Integer view of a list of ranges.
pub open spec fn range_seq(v: Seq<(usize, usize)>) -> Seq<(int, int)> {
    v.map_values(|r: (usize, usize)| (r.0 as int, r.1 as int))
}

/// The index of the key spelled by `s[a..b)` among literal keys.
pub fn find_key(s: &Vec<char>, a: usize, b: usize, keys: &[&str]) -> (r: Option<usize>)
    requires
        a <= b <= s@.len(),
    ensures
        match r {
            Some(k) => key_index(s@, a as int, b as int, key_seq(keys@)) is Some && k < keys@.len()
                && key_seq(keys@)[k as int] == s@.subrange(a as int, b as int),
            None => key_index(s@, a as int, b as int, key_seq(keys@)) is None,
        },
{
    let mut k: usize = 0;
    while k < keys.len()
        invariant
            a <= b <= s@.len(),
            k <= keys@.len(),
            forall|m: int| 0 <= m < k ==> key_seq(keys@)[m] != s@.subrange(a as int, b as int),
        decreases keys@.len() - k,
    {
        if range_eq_str(s, a, b, keys[k]) {
            assert(key_seq(keys@)[k as int] == s@.subrange(a as int, b as int));
            return Some(k);
        }
        k = k + 1;
    }
    None
}

/// Character view of a list of literal keys.
pub open spec fn key_seq(keys: Seq<&str>) -> Seq<Seq<char>> {
    keys.map_values(|k: &str| k@)
}

/// A key found by text is the only key with that text, when keys are distinct.
pub proof fn lemma_key_index_unique(s: Seq<char>, a: int, b: int, keys: Seq<Seq<char>>, k: int)
    requires
        0 <= k < keys.len(),
        keys[k] == s.subrange(a, b),
        forall|x: int, y: int| 0 <= x < keys.len() && 0 <= y < keys.len() && x != y ==> keys[x] != keys[y],
    ensures
        key_index(s, a, b, keys) == Some(k),
{
}

/// Read every line of a record into per-key value ranges.
pub fn scan_fields(
    s: &Vec<char>,
    lines: &Vec<(usize, usize)>,
    keys: &[&str],
    repeatable: &[bool],
) -> (r: Result<Vec<Vec<(usize, usize)>>, ScanError>)
    requires
        forall|k: int| 0 <= k < lines@.len() ==> (#[trigger] lines@[k]).0 <= lines@[k].1 <= s@.len(),
        repeatable@.len() == keys@.len(),
        forall|x: int, y: int|
            0 <= x < keys@.len() && 0 <= y < keys@.len() && x != y ==> key_seq(keys@)[x] != key_seq(
                keys@,
            )[y],
    ensures
        match r {
            Ok(slots) => {
                &&& field_scan(s@, range_seq(lines@), key_seq(keys@), repeatable@, lines@.len() as nat)
                    == FieldScan::Fine(slots_view(slots@))
                &&& slots@.len() == keys@.len()
                &&& forall|k: int, m: int|
                    0 <= k < slots@.len() && 0 <= m < slots@[k]@.len() ==> (#[trigger] slots@[k]@[m]).0
                        <= slots@[k]@[m].1 <= s@.len()
            },
            Err(ScanError::Invalid) => field_scan(
                s@,
                range_seq(lines@),
                key_seq(keys@),
                repeatable@,
                lines@.len() as nat,
            ) == FieldScan::Invalid,
            Err(ScanError::Unknown) => field_scan(
                s@,
                range_seq(lines@),
                key_seq(keys@),
                repeatable@,
                lines@.len() as nat,
            ) == FieldScan::Unknown,
            Err(ScanError::Duplicate) => field_scan(
                s@,
                range_seq(lines@),
                key_seq(keys@),
                repeatable@,
                lines@.len() as nat,
            ) == FieldScan::Duplicate,
        },
{
    let ghost sv = s@;
    let ghost lv = range_seq(lines@);
    let ghost kv = key_seq(keys@);
    let mut slots: Vec<Vec<(usize, usize)>> = Vec::new();
    let mut k: usize = 0;
    while k < keys.len()
        invariant
            k <= keys@.len(),
            slots@.len() == k,
            forall|m: int| 0 <= m < k ==> (#[trigger] slots@[m])@.len() == 0,
        decreases keys@.len() - k,
    {
        slots.push(Vec::new());
        k = k + 1;
    }
    assert forall|m: int| 0 <= m < slots@.len() implies slots_view(slots@)[m] =~= Seq::<
        (int, int),
    >::empty() by {
        assert(slots@[m]@.len() == 0);
    }
    assert(slots_view(slots@) =~= Seq::new(kv.len(), |k: int| Seq::<(int, int)>::empty()));
    let mut i: usize = 0;
    while i < lines.len()
        invariant
            i <= lines@.len(),
            sv == s@,
            lv == range_seq(lines@),
            kv == key_seq(keys@),
            repeatable@.len() == keys@.len(),
            slots@.len() == keys@.len(),
            forall|k: int| 0 <= k < lines@.len() ==> (#[trigger] lines@[k]).0 <= lines@[k].1 <= s@.len(),
            forall|x: int, y: int|
                0 <= x < keys@.len() && 0 <= y < keys@.len() && x != y ==> kv[x] != kv[y],
            field_scan(sv, lv, kv, repeatable@, i as nat) == FieldScan::Fine(slots_view(slots@)),
            forall|k: int, m: int|
                0 <= k < slots@.len() && 0 <= m < slots@[k]@.len() ==> (#[trigger] slots@[k]@[m]).0
                    <= slots@[k]@[m].1 <= s@.len(),
        decreases lines@.len() - i,
    {
        let (a, b) = lines[i];
        assert(lv[i as int] == (a as int, b as int));
        let j = match split_pair(s, a, b) {
            Some(j) => j,
            None => {
                proof {
                    lemma_field_scan_sticky(sv, lv, kv, repeatable@, (i + 1) as nat, lines@.len() as nat);
                }
                return Err(ScanError::Invalid);
            },
        };
        let key = match find_key(s, a, j, keys) {
            Some(key) => key,
            None => {
                proof {
                    lemma_field_scan_sticky(sv, lv, kv, repeatable@, (i + 1) as nat, lines@.len() as nat);
                }
                return Err(ScanError::Unknown);
            },
        };
        proof {
            lemma_key_index_unique(sv, a as int, j as int, kv, key as int);
        }
        if slots[key].len() > 0 && !repeatable[key] {
            proof {
                lemma_field_scan_sticky(sv, lv, kv, repeatable@, (i + 1) as nat, lines@.len() as nat);
            }
            return Err(ScanError::Duplicate);
        }
        let ghost old_slots = slots@;
        let mut slot = copy_ranges(&slots[key]);
        slot.push((j + 1, b));
        slots.set(key, slot);
        proof {
            assert forall|m: int| 0 <= m < slots@.len() implies slots_view(slots@)[m]
                =~= slots_view(old_slots).update(
                key as int,
                slots_view(old_slots)[key as int].push(((j + 1) as int, b as int)),
            )[m] by {
                if m == key {
                    assert(slots@[m]@ == old_slots[m]@.push(((j + 1) as usize, b)));
                } else {
                    assert(slots@[m] == old_slots[m]);
                }
            }
            assert(slots_view(slots@) =~= slots_view(old_slots).update(
                key as int,
                slots_view(old_slots)[key as int].push(((j + 1) as int, b as int)),
            ));
            assert forall|k: int, m: int|
                0 <= k < slots@.len() && 0 <= m < slots@[k]@.len() implies (
                #[trigger] slots@[k]@[m]).0 <= slots@[k]@[m].1 <= s@.len() by {
                if k != key {
                    assert(slots@[k] == old_slots[k]);
                } else if m < old_slots[k]@.len() {
                    assert(slots@[k]@[m] == old_slots[k]@[m]);
                }
            }
        }
        i = i + 1;
    }
    Ok(slots)
}

/// A copy of a list of ranges.
pub fn copy_ranges(v: &Vec<(usize, usize)>) -> (r: Vec<(usize, usize)>)
    ensures
        r@ == v@,
{
    let mut out: Vec<(usize, usize)> = Vec::new();
    let mut i: usize = 0;
    while i < v.len()
        invariant
            i <= v@.len(),
            out@ == v@.subrange(0, i as int),
        decreases v@.len() - i,
    {
        out.push(v[i]);
        i = i + 1;
        assert(out@ =~= v@.subrange(0, i as int));
    }
    assert(out@ =~= v@);
    out
}

/// Once reading stops at a bad line, later lines do not change the outcome.
pub proof fn lemma_field_scan_sticky(
    s: Seq<char>,
    lines: Seq<(int, int)>,
    keys: Seq<Seq<char>>,
    repeatable: Seq<bool>,
    i: nat,
    n: nat,
)
    requires
        i <= n,
        !(field_scan(s, lines, keys, repeatable, i) is Fine),
    ensures
        field_scan(s, lines, keys, repeatable, n) == field_scan(s, lines, keys, repeatable, i),
    decreases n - i,
{
    if i < n {
        lemma_field_scan_sticky(s, lines, keys, repeatable, i, (n - 1) as nat);
    }
}

/// A `key=value` line.
pub open spec fn pair_line(key: Seq<char>, val: Seq<char>) -> Seq<char> {
    key + seq!['='] + val
}

/// Whether a text has no `=` in it.
pub open spec fn no_equals(t: Seq<char>) -> bool {
    forall|k: int| 0 <= k < t.len() ==> #[trigger] t[k] != '='
}

/// Per-key value ranges of the first `n` lines, when line `i` is a pair whose
/// key is `keys[line_keys[i]]` and whose text lies at `spans[i]`.
pub open spec fn pair_slots(
    spans: Seq<(int, int)>,
    line_keys: Seq<int>,
    keys: Seq<Seq<char>>,
    n: nat,
) -> Seq<Seq<(int, int)>>
    decreases n,
{
    if n == 0 {
        Seq::new(keys.len(), |k: int| Seq::<(int, int)>::empty())
    } else {
        let prev = pair_slots(spans, line_keys, keys, (n - 1) as nat);
        let i = n - 1;
        let k = line_keys[i];
        prev.update(k, prev[k].push((spans[i].0 + keys[k].len() + 1, spans[i].1)))
    }
}

/// Whether line `i` of `s` at `spans[i]` is the pair `keys[line_keys[i]]=vals[i]`,
/// with a non-empty key free of `=` and a non-empty value.
pub open spec fn is_pair_at(
    s: Seq<char>,
    spans: Seq<(int, int)>,
    line_keys: Seq<int>,
    vals: Seq<Seq<char>>,
    keys: Seq<Seq<char>>,
    i: int,
) -> bool {
    &&& 0 <= line_keys[i] < keys.len()
    &&& 0 <= spans[i].0 <= spans[i].1 <= s.len()
    &&& s.subrange(spans[i].0, spans[i].1) == pair_line(keys[line_keys[i]], vals[i])
    &&& keys[line_keys[i]].len() > 0
    &&& no_equals(keys[line_keys[i]])
    &&& vals[i].len() > 0
}

/// A line that is a well-formed pair splits at the `=` after its key.
pub proof fn lemma_pair_split_at(
    s: Seq<char>,
    spans: Seq<(int, int)>,
    line_keys: Seq<int>,
    vals: Seq<Seq<char>>,
    keys: Seq<Seq<char>>,
    i: int,
)
    requires
        0 <= i < spans.len(),
        i < line_keys.len(),
        i < vals.len(),
        is_pair_at(s, spans, line_keys, vals, keys, i),
    ensures
        pair_split(s, spans[i]) == Some(spans[i].0 + keys[line_keys[i]].len()),
        s.subrange(spans[i].0, spans[i].0 + keys[line_keys[i]].len()) == keys[line_keys[i]],
        s.subrange(spans[i].0 + keys[line_keys[i]].len() + 1, spans[i].1) == vals[i],
{
    let r = spans[i];
    let key = keys[line_keys[i]];
    let line = pair_line(key, vals[i]);
    let j = r.0 + key.len();
    assert(line.len() == key.len() + 1 + vals[i].len());
    assert(s[j] == line[key.len() as int]);
    assert forall|k: int| r.0 <= k < j implies s[k] != '=' by {
        assert(s[k] == line[k - r.0]);
        assert(line[k - r.0] == key[k - r.0]);
    }
    lemma_find_first(s, '=', r.0, j, r.1);
    assert(s.subrange(r.0, j) =~= key) by {
        assert forall|k: int| 0 <= k < key.len() implies s.subrange(r.0, j)[k] == key[k] by {
            assert(s[r.0 + k] == line[k]);
        }
    }
    assert(s.subrange(j + 1, r.1) =~= vals[i]) by {
        assert forall|k: int| 0 <= k < vals[i].len() implies s.subrange(j + 1, r.1)[k]
            == vals[i][k] by {
            assert(s[j + 1 + k] == line[key.len() + 1 + k]);
        }
    }
}

/// Reading lines that are all well-formed pairs of distinct known keys, with no
/// once-only key twice, gives the value ranges of the pairs.
pub proof fn lemma_pair_scan(
    s: Seq<char>,
    spans: Seq<(int, int)>,
    keys: Seq<Seq<char>>,
    repeatable: Seq<bool>,
    line_keys: Seq<int>,
    vals: Seq<Seq<char>>,
    n: nat,
)
    requires
        n <= spans.len(),
        n <= line_keys.len(),
        n <= vals.len(),
        repeatable.len() == keys.len(),
        forall|x: int, y: int| 0 <= x < keys.len() && 0 <= y < keys.len() && x != y ==> keys[x] != keys[y],
        forall|i: int| 0 <= i < n ==> #[trigger] is_pair_at(s, spans, line_keys, vals, keys, i),
        forall|i: int, j: int|
            0 <= i < j < n && line_keys[i] == line_keys[j] ==> repeatable[line_keys[i]],
    ensures
        field_scan(s, spans, keys, repeatable, n) == FieldScan::Fine(
            pair_slots(spans, line_keys, keys, n),
        ),
        pair_slots(spans, line_keys, keys, n).len() == keys.len(),
        forall|k: int|
            0 <= k < keys.len() && (#[trigger] pair_slots(spans, line_keys, keys, n)[k]).len() > 0
                ==> exists|i: int| 0 <= i < n && line_keys[i] == k,
        forall|i: int| 0 <= i < n ==> (#[trigger] pair_split(s, spans[i])) is Some,
    decreases n,
{
    if n > 0 {
        let m = (n - 1) as nat;
        lemma_pair_scan(s, spans, keys, repeatable, line_keys, vals, m);
        let i = m as int;
        assert(is_pair_at(s, spans, line_keys, vals, keys, i));
        lemma_pair_split_at(s, spans, line_keys, vals, keys, i);
        let k = line_keys[i];
        let j = spans[i].0 + keys[k].len();
        lemma_key_index_unique(s, spans[i].0, j, keys, k);
        let prev = pair_slots(spans, line_keys, keys, m);
        if prev[k].len() > 0 && !repeatable[k] {
            let w = choose|w: int| 0 <= w < m && line_keys[w] == k;
            assert(repeatable[line_keys[w]]);
        }
        let cur = pair_slots(spans, line_keys, keys, n);
        assert forall|q: int|
            0 <= q < keys.len() && (#[trigger] cur[q]).len() > 0 implies exists|w: int|
            0 <= w < n && line_keys[w] == q by {
            if q != k {
                assert(cur[q] == prev[q]);
                let w = choose|w: int| 0 <= w < m && line_keys[w] == q;
                assert(0 <= w < n && line_keys[w] == q);
            } else {
                assert(line_keys[i] == q);
            }
        }
    }
}

/// When line `i` holds key `i` for every key, each key has exactly the value
/// range of its own line.
pub proof fn lemma_pair_slots_in_order(
    spans: Seq<(int, int)>,
    line_keys: Seq<int>,
    keys: Seq<Seq<char>>,
    m: nat,
)
    requires
        m <= keys.len(),
        m <= line_keys.len(),
        m <= spans.len(),
        forall|i: int| 0 <= i < m ==> line_keys[i] == i,
    ensures
        pair_slots(spans, line_keys, keys, m).len() == keys.len(),
        forall|k: int|
            0 <= k < keys.len() ==> #[trigger] pair_slots(spans, line_keys, keys, m)[k] == if k < m {
                seq![(spans[k].0 + keys[k].len() + 1, spans[k].1)]
            } else {
                Seq::<(int, int)>::empty()
            },
    decreases m,
{
    if m > 0 {
        lemma_pair_slots_in_order(spans, line_keys, keys, (m - 1) as nat);
        let prev = pair_slots(spans, line_keys, keys, (m - 1) as nat);
        let cur = pair_slots(spans, line_keys, keys, m);
        assert forall|k: int| 0 <= k < keys.len() implies #[trigger] cur[k] == if k < m {
            seq![(spans[k].0 + keys[k].len() + 1, spans[k].1)]
        } else {
            Seq::<(int, int)>::empty()
        } by {
            if k == m - 1 {
                assert(prev[k] == Seq::<(int, int)>::empty());
                assert(cur[k] =~= seq![(spans[k].0 + keys[k].len() + 1, spans[k].1)]);
            }
        }
    }
}

/// When lines 0 and 1 hold keys 0 and 1 and every later line holds key 2,
/// keys 0 and 1 have the value ranges of lines 0 and 1, and key 2 those of
/// the later lines, in order.
pub proof fn lemma_pair_slots_header_rows(
    spans: Seq<(int, int)>,
    line_keys: Seq<int>,
    keys: Seq<Seq<char>>,
    m: nat,
)
    requires
        keys.len() == 3,
        2 <= m <= line_keys.len(),
        m <= spans.len(),
        line_keys[0] == 0,
        line_keys[1] == 1,
        forall|i: int| 2 <= i < m ==> line_keys[i] == 2,
    ensures
        pair_slots(spans, line_keys, keys, m).len() == 3,
        pair_slots(spans, line_keys, keys, m)[0] == seq![(spans[0].0 + keys[0].len() + 1, spans[0].1)],
        pair_slots(spans, line_keys, keys, m)[1] == seq![(spans[1].0 + keys[1].len() + 1, spans[1].1)],
        pair_slots(spans, line_keys, keys, m)[2] == Seq::new(
            (m - 2) as nat,
            |i: int| (spans[i + 2].0 + keys[2].len() + 1, spans[i + 2].1),
        ),
    decreases m,
{
    if m == 2 {
        lemma_pair_slots_in_order(spans, line_keys, keys, 2);
        assert(pair_slots(spans, line_keys, keys, 2)[2] =~= Seq::new(
            0,
            |i: int| (spans[i + 2].0 + keys[2].len() + 1, spans[i + 2].1),
        ));
    } else {
        lemma_pair_slots_header_rows(spans, line_keys, keys, (m - 1) as nat);
        let prev = pair_slots(spans, line_keys, keys, (m - 1) as nat);
        let cur = pair_slots(spans, line_keys, keys, m);
        assert(line_keys[m - 1] == 2);
        assert(cur[2] =~= Seq::new(
            (m - 2) as nat,
            |i: int| (spans[i + 2].0 + keys[2].len() + 1, spans[i + 2].1),
        ));
        assert(cur[0] == prev[0]);
        assert(cur[1] == prev[1]);
    }
}

/// When line `i` holds key `i` for the first `h` lines and every later line
/// holds key `h`, each of the first `h` keys has the value range of its own
/// line, and key `h` those of the later lines, in order.
pub proof fn lemma_pair_slots_headers_then_rows(
    spans: Seq<(int, int)>,
    line_keys: Seq<int>,
    keys: Seq<Seq<char>>,
    h: nat,
    m: nat,
)
    requires
        keys.len() == h + 1,
        h <= m <= line_keys.len(),
        m <= spans.len(),
        forall|i: int| 0 <= i < h ==> line_keys[i] == i,
        forall|i: int| h <= i < m ==> line_keys[i] == h,
    ensures
        pair_slots(spans, line_keys, keys, m).len() == h + 1,
        forall|k: int|
            0 <= k < h ==> #[trigger] pair_slots(spans, line_keys, keys, m)[k] == seq![
                (spans[k].0 + keys[k].len() + 1, spans[k].1),
            ],
        pair_slots(spans, line_keys, keys, m)[h as int] == Seq::new(
            (m - h) as nat,
            |i: int| (spans[i + h].0 + keys[h as int].len() + 1, spans[i + h].1),
        ),
    decreases m,
{
    if m == h {
        lemma_pair_slots_in_order(spans, line_keys, keys, h);
        assert(pair_slots(spans, line_keys, keys, h)[h as int] =~= Seq::new(
            0,
            |i: int| (spans[i + h].0 + keys[h as int].len() + 1, spans[i + h].1),
        ));
    } else {
        lemma_pair_slots_headers_then_rows(spans, line_keys, keys, h, (m - 1) as nat);
        let prev = pair_slots(spans, line_keys, keys, (m - 1) as nat);
        let cur = pair_slots(spans, line_keys, keys, m);
        assert(line_keys[m - 1] == h);
        assert(cur[h as int] =~= Seq::new(
            (m - h) as nat,
            |i: int| (spans[i + h].0 + keys[h as int].len() + 1, spans[i + h].1),
        ));
        assert forall|k: int| 0 <= k < h implies #[trigger] cur[k] == seq![
            (spans[k].0 + keys[k].len() + 1, spans[k].1),
        ] by {
            assert(cur[k] == prev[k]);
        }
    }
}

/// The lines of a record holding `keys[i]=vals[i]` on line `i`.
pub open spec fn record_lines(keys: Seq<Seq<char>>, vals: Seq<Seq<char>>) -> Seq<Seq<char>> {
    Seq::new(keys.len(), |i: int| pair_line(keys[i], vals[i]))
}

/// Whether keys and values can be written as a record that reads back: keys
/// are distinct, non-empty, free of `=`, and values are non-empty; neither
/// holds a line break.
pub open spec fn writable_record(keys: Seq<Seq<char>>, vals: Seq<Seq<char>>) -> bool {
    &&& keys.len() == vals.len()
    &&& forall|x: int, y: int| 0 <= x < keys.len() && 0 <= y < keys.len() && x != y ==> keys[x] != keys[y]
    &&& forall|i: int|
        0 <= i < keys.len() ==> #[trigger] keys[i].len() > 0 && no_equals(keys[i]) && plain_line(
            keys[i],
        ) && vals[i].len() > 0 && plain_line(vals[i])
}

/// Where the value of key `k` lies in a record written in key order.
pub open spec fn record_value_span(s: Seq<char>, keys: Seq<Seq<char>>, k: int) -> (int, int) {
    (line_ranges(s)[k].0 + keys[k].len() + 1, line_ranges(s)[k].1)
}

/// A record written one pair per line, in key order, reads back key by key.
pub proof fn lemma_record_fields(
    s: Seq<char>,
    keys: Seq<Seq<char>>,
    vals: Seq<Seq<char>>,
    repeatable: Seq<bool>,
)
    requires
        writable_record(keys, vals),
        repeatable.len() == keys.len(),
        s == joined_lines(record_lines(keys, vals)),
    ensures
        line_ranges(s).len() == keys.len(),
        all_pairs(s, line_ranges(s)),
        field_scan(s, line_ranges(s), keys, repeatable, keys.len()) == FieldScan::Fine(
            Seq::new(keys.len(), |k: int| seq![record_value_span(s, keys, k)]),
        ),
        forall|k: int|
            0 <= k < keys.len() ==> 0 <= (#[trigger] record_value_span(s, keys, k)).0 <= record_value_span(
                s,
                keys,
                k,
            ).1 <= s.len() && s.subrange(record_value_span(s, keys, k).0, record_value_span(s, keys, k).1)
                == vals[k],
{
    let ls = record_lines(keys, vals);
    let n = keys.len();
    assert forall|i: int| 0 <= i < ls.len() implies plain_line(#[trigger] ls[i]) by {
        let l = ls[i];
        assert(l == pair_line(keys[i], vals[i]));
        assert(writable_record(keys, vals));
        assert(keys[i].len() > 0 && plain_line(keys[i]) && plain_line(vals[i]));
        assert forall|k: int| 0 <= k < l.len() implies #[trigger] l[k] != '\n' && l[k] != '\r' by {
            if k < keys[i].len() {
                assert(l[k] == keys[i][k]);
            } else if k > keys[i].len() {
                assert(l[k] == vals[i][k - keys[i].len() - 1]);
            }
        }
    }
    assert(s.subrange(0, s.len() as int) =~= s);
    lemma_lines_of_joined(s, 0, ls);
    let spans = line_spans(ls, 0);
    assert(line_ranges(s) == spans);
    let line_keys = Seq::new(n, |i: int| i);
    assert forall|i: int| 0 <= i < n implies #[trigger] is_pair_at(s, spans, line_keys, vals, keys, i) by {
        assert(ls[i] == pair_line(keys[i], vals[i]));
        assert(keys[i].len() > 0 && no_equals(keys[i]) && vals[i].len() > 0);
        assert(line_keys[i] == i);
        let sp = line_spans(ls, 0)[i];
        assert(0 <= sp.0 && sp.1 <= s.len() && s.subrange(sp.0, sp.1) == ls[i]);
        assert(sp.0 <= sp.1);
    }
    lemma_pair_scan(s, spans, keys, repeatable, line_keys, vals, n);
    lemma_pair_slots_in_order(spans, line_keys, keys, n);
    assert(pair_slots(spans, line_keys, keys, n) =~= Seq::new(
        n,
        |k: int| seq![record_value_span(s, keys, k)],
    ));
    assert forall|k: int| 0 <= k < n implies 0 <= (#[trigger] record_value_span(s, keys, k)).0
        <= record_value_span(s, keys, k).1 <= s.len() && s.subrange(
        record_value_span(s, keys, k).0,
        record_value_span(s, keys, k).1,
    ) == vals[k] by {
        assert(is_pair_at(s, spans, line_keys, vals, keys, k));
        lemma_pair_split_at(s, spans, line_keys, vals, keys, k);
    }
}

/// Integer view of per-key value ranges.
pub open spec fn slots_view(v: Seq<Vec<(usize, usize)>>) -> Seq<Seq<(int, int)>> {
    v.map_values(|slot: Vec<(usize, usize)>| range_seq(slot@))
}

/// The single value range of a key that may appear once, if the key appeared.
pub open spec fn single_value(slots: Seq<Seq<(int, int)>>, k: int) -> Option<(int, int)> {
    if slots[k].len() > 0 {
        Some(slots[k][0])
    } else {
        None
    }
}

/// A record of ASCII keys and values, each pair at most `w` characters long
/// with its `=`, is ASCII text of at most `(w + 1)` characters per key.
pub proof fn lemma_record_ascii(keys: Seq<Seq<char>>, vals: Seq<Seq<char>>, w: nat)
    requires
        keys.len() == vals.len(),
        forall|i: int|
            0 <= i < keys.len() ==> is_ascii_chars(#[trigger] keys[i]) && is_ascii_chars(vals[i])
                && keys[i].len() + 1 + vals[i].len() <= w,
    ensures
        is_ascii_chars(joined_lines(record_lines(keys, vals))),
        joined_lines(record_lines(keys, vals)).len() <= keys.len() * (w + 1),
{
    let ls = record_lines(keys, vals);
    assert(is_ascii_chars(seq!['=']));
    assert forall|i: int| 0 <= i < ls.len() implies is_ascii_chars(#[trigger] ls[i]) && ls[i].len()
        <= w by {
        assert(ls[i] == keys[i] + seq!['='] + vals[i]);
        lemma_ascii_concat(keys[i], seq!['=']);
        lemma_ascii_concat(keys[i] + seq!['='], vals[i]);
    }
    lemma_joined_lines_ascii(ls, w);
}

} // verus!
