//! Small verified text helpers shared across the crate: whitespace
//! handling, prefix tests and case-insensitive comparison.

use vstd::prelude::*;

verus! {

/// Whether `c` has the Unicode `White_Space` property, written out as the
/// explicit list of code points so the definition is self-contained.
pub open spec fn is_space_char(c: char) -> bool {
    let u = c as u32;
    ||| 0x09 <= u <= 0x0d
    ||| u == 0x20
    ||| u == 0x85
    ||| u == 0xa0
    ||| u == 0x1680
    ||| 0x2000 <= u <= 0x200a
    ||| u == 0x2028
    ||| u == 0x2029
    ||| u == 0x202f
    ||| u == 0x205f
    ||| u == 0x3000
}

/// Executable test for [`is_space_char`].
pub fn space_char(c: char) -> (r: bool)
    ensures
        r == is_space_char(c),
{
    let u = c as u32;
    (0x09 <= u && u <= 0x0d) || u == 0x20 || u == 0x85 || u == 0xa0 || u == 0x1680 || (0x2000 <= u
        && u <= 0x200a) || u == 0x2028 || u == 0x2029 || u == 0x202f || u == 0x205f || u == 0x3000
}

/// A sequence is blank when every character is whitespace; the empty
/// sequence is blank.
pub open spec fn is_blank_view(s: Seq<char>) -> bool {
    forall|i: int| 0 <= i < s.len() ==> is_space_char(s[i])
}

/// What trimming leading and trailing whitespace and asking for emptiness
/// leaves of a string: `None` when blank, the string itself otherwise.
pub open spec fn non_empty_view(s: Seq<char>) -> Option<Seq<char>> {
    if is_blank_view(s) {
        None
    } else {
        Some(s)
    }
}

/// Executable test for [`is_blank_view`].
pub fn is_blank(s: &str) -> (r: bool)
    ensures
        r == is_blank_view(s@),
{
    let n = s.unicode_len();
    let mut i: usize = 0;
    while i < n
        invariant
            0 <= i <= n,
            n == s@.len(),
            forall|j: int| 0 <= j < i ==> is_space_char(s@[j]),
        decreases n - i,
    {
        if !space_char(s.get_char(i)) {
            return false;
        }
        i += 1;
    }
    true
}

/// Whether two characters are equal up to ASCII letter case.
pub open spec fn chars_eq_ci(a: char, b: char) -> bool {
    ||| a == b
    ||| (0x41 <= a as u32 <= 0x5a && b as u32 == a as u32 + 0x20)
    ||| (0x41 <= b as u32 <= 0x5a && a as u32 == b as u32 + 0x20)
}

/// Whether two sequences are equal up to ASCII letter case.
pub open spec fn eq_ignore_ascii_case(a: Seq<char>, b: Seq<char>) -> bool {
    a.len() == b.len() && (forall|i: int| 0 <= i < a.len() ==> chars_eq_ci(a[i], b[i]))
}

/// Executable test for [`chars_eq_ci`].
pub fn char_eq_ci(a: char, b: char) -> (r: bool)
    ensures
        r == chars_eq_ci(a, b),
{
    let au = a as u32;
    let bu = b as u32;
    a == b || (0x41 <= au && au <= 0x5a && bu == au + 0x20) || (0x41 <= bu && bu <= 0x5a && au
        == bu + 0x20)
}

/// Compares `s[from..to]` with `word`, ignoring ASCII letter case.
pub fn range_eq_ci(s: &str, from: usize, to: usize, word: &str) -> (r: bool)
    requires
        from <= to <= s@.len(),
    ensures
        r == eq_ignore_ascii_case(s@.subrange(from as int, to as int), word@),
{
    let ghost sub = s@.subrange(from as int, to as int);
    let word_len = word.unicode_len();
    if to - from != word_len {
        return false;
    }
    let mut i: usize = 0;
    while i < word_len
        invariant
            from <= to <= s@.len(),
            to - from == word_len == word@.len(),
            0 <= i <= word_len,
            sub == s@.subrange(from as int, to as int),
            forall|j: int| 0 <= j < i ==> chars_eq_ci(sub[j], word@[j]),
        decreases word_len - i,
    {
        assert(sub[i as int] == s@[from + i]);
        if !char_eq_ci(s.get_char(from + i), word.get_char(i)) {
            return false;
        }
        i += 1;
    }
    true
}

/// Index of the first character that is not whitespace; one past every
/// position when the sequence is blank.
pub open spec fn first_non_space(s: Seq<char>) -> int
    decreases s.len(),
{
    if s.len() == 0 {
        0
    } else if !is_space_char(s[0]) {
        0
    } else {
        1 + first_non_space(s.drop_first())
    }
}

/// Index of the last character that is not whitespace; `-1` when blank.
pub open spec fn last_non_space(s: Seq<char>) -> int
    decreases s.len(),
{
    if s.len() == 0 {
        -1
    } else if !is_space_char(s.last()) {
        s.len() - 1
    } else {
        last_non_space(s.drop_last())
    }
}

/// What [`first_non_space`] points at when the sequence is not blank.
pub proof fn lemma_first_non_space(s: Seq<char>)
    requires
        !is_blank_view(s),
    ensures
        0 <= first_non_space(s) < s.len(),
        !is_space_char(s[first_non_space(s)]),
        forall|j: int| 0 <= j < first_non_space(s) ==> is_space_char(s[j]),
    decreases s.len(),
{
    let witness = choose|i: int| 0 <= i < s.len() && !is_space_char(s[i]);
    if is_space_char(s[0]) {
        let rest = s.drop_first();
        assert(!is_blank_view(rest)) by {
            assert(rest[witness - 1] == s[witness]);
        }
        lemma_first_non_space(rest);
        assert forall|j: int| 0 <= j < first_non_space(s) implies is_space_char(s[j]) by {
            if j > 0 {
                assert(rest[j - 1] == s[j]);
                assert(is_space_char(rest[j - 1]));
            }
        }
    }
}

/// What [`last_non_space`] points at when the sequence is not blank.
pub proof fn lemma_last_non_space(s: Seq<char>)
    requires
        !is_blank_view(s),
    ensures
        0 <= last_non_space(s) < s.len(),
        !is_space_char(s[last_non_space(s)]),
        forall|j: int| last_non_space(s) < j < s.len() ==> is_space_char(s[j]),
    decreases s.len(),
{
    let witness = choose|i: int| 0 <= i < s.len() && !is_space_char(s[i]);
    if is_space_char(s.last()) {
        let rest = s.drop_last();
        assert(!is_blank_view(rest)) by {
            assert(rest[witness] == s[witness]);
        }
        lemma_last_non_space(rest);
        assert forall|j: int| last_non_space(s) < j < s.len() implies is_space_char(s[j]) by {
            if j < s.len() - 1 {
                assert(rest[j] == s[j]);
                assert(is_space_char(rest[j]));
            }
        }
    }
}

/// What trimming leading and trailing whitespace leaves of a sequence.
pub open spec fn trim_view(s: Seq<char>) -> Seq<char> {
    if is_blank_view(s) {
        Seq::empty()
    } else {
        s.subrange(first_non_space(s), last_non_space(s) + 1)
    }
}

/// The bounds that trimming `s[from..to]` keeps: a subrange `[r.0, r.1)`
/// of `[from, to)` whose content is the trimmed range, empty exactly when
/// the range is blank.
/// Compares `s[from..to]` with `word` exactly.
pub fn range_eq(s: &str, from: usize, to: usize, word: &str) -> (r: bool)
    requires
        from <= to <= s@.len(),
    ensures
        r == (s@.subrange(from as int, to as int) == word@),
{
    let ghost sub = s@.subrange(from as int, to as int);
    let word_len = word.unicode_len();
    if to - from != word_len {
        assert(sub != word@) by {
            assert(sub.len() != word@.len());
        }
        return false;
    }
    let mut i: usize = 0;
    while i < word_len
        invariant
            from <= to <= s@.len(),
            to - from == word_len == word@.len(),
            0 <= i <= word_len,
            sub == s@.subrange(from as int, to as int),
            forall|j: int| 0 <= j < i ==> sub[j] == word@[j],
        decreases word_len - i,
    {
        assert(sub[i as int] == s@[from + i]);
        if s.get_char(from + i) != word.get_char(i) {
            assert(sub != word@) by {
                assert(sub[i as int] != word@[i as int]);
            }
            return false;
        }
        i += 1;
    }
    assert(sub =~= word@);
    true
}

/// Index of the first non-whitespace character in `s[from..to)`, or `to`
/// when the range is blank.
fn scan_non_space(s: &str, from: usize, to: usize) -> (r: usize)
    requires
        from <= to <= s@.len(),
    ensures
        from <= r <= to,
        forall|j: int| from <= j < r ==> is_space_char(s@[j]),
        r < to ==> !is_space_char(s@[r as int]),
{
    let mut i = from;
    while i < to
        invariant
            from <= i <= to <= s@.len(),
            forall|j: int| from <= j < i ==> is_space_char(s@[j]),
        decreases to - i,
    {
        if !space_char(s.get_char(i)) {
            return i;
        }
        i += 1;
    }
    to
}

/// One past the last non-whitespace character in `s[from..to)`, or `from`
/// when the range is blank.
fn scan_non_space_rev(s: &str, from: usize, to: usize) -> (r: usize)
    requires
        from <= to <= s@.len(),
    ensures
        from <= r <= to,
        forall|j: int| r <= j < to ==> is_space_char(s@[j]),
        r > from ==> !is_space_char(s@[r - 1]),
{
    let mut i = to;
    while i > from
        invariant
            from <= i <= to <= s@.len(),
            forall|j: int| i <= j < to ==> is_space_char(s@[j]),
        decreases i,
    {
        if !space_char(s.get_char(i - 1)) {
            return i;
        }
        i -= 1;
    }
    from
}

pub fn trim_range(s: &str, from: usize, to: usize) -> (r: (usize, usize))
    requires
        from <= to <= s@.len(),
    ensures
        from <= r.0 <= r.1 <= to,
        trim_view(s@.subrange(from as int, to as int)) == s@.subrange(r.0 as int, r.1 as int),
        r.0 == r.1 <==> is_blank_view(s@.subrange(from as int, to as int)),
{
    let ghost sub = s@.subrange(from as int, to as int);
    let lo = scan_non_space(s, from, to);
    if lo == to {
        assert(is_blank_view(sub)) by {
            assert(forall|j: int| 0 <= j < sub.len() ==> sub[j] == s@[from + j]);
        }
        assert(trim_view(sub) =~= s@.subrange(from as int, from as int));
        return (from, from);
    }
    let hi = scan_non_space_rev(s, from, to);
    proof {
        assert(forall|j: int| 0 <= j < sub.len() ==> sub[j] == s@[from + j]);
        assert(lo < hi) by {
            if hi <= lo {
                assert(is_space_char(s@[lo as int]));
            }
        }
        assert(!is_blank_view(sub)) by {
            assert(sub[lo - from] == s@[lo as int]);
        }
        lemma_first_non_space(sub);
        lemma_last_non_space(sub);
        let f = first_non_space(sub);
        let l = last_non_space(sub);
        assert(f == lo - from) by {
            if f < lo - from {
                assert(is_space_char(s@[from + f]));
            }
            if f > lo - from {
                assert(is_space_char(sub[lo - from]));
            }
        }
        assert(l == hi - 1 - from) by {
            if l > hi - 1 - from {
                assert(is_space_char(s@[from + l]));
            }
            if l < hi - 1 - from {
                assert(is_space_char(sub[hi - 1 - from]));
            }
        }
        assert(trim_view(sub) =~= s@.subrange(lo as int, hi as int));
    }
    (lo, hi)
}

/// Whether `prefix` starts `s`.
pub fn str_starts_with(s: &str, prefix: &str) -> (r: bool)
    ensures
        r == prefix@.is_prefix_of(s@),
{
    let n = s.unicode_len();
    let p = prefix.unicode_len();
    if p > n {
        return false;
    }
    let mut i: usize = 0;
    while i < p
        invariant
            0 <= i <= p,
            p == prefix@.len() <= n == s@.len(),
            forall|j: int| 0 <= j < i ==> s@[j] == prefix@[j],
        decreases p - i,
    {
        if s.get_char(i) != prefix.get_char(i) {
            assert(!prefix@.is_prefix_of(s@)) by {
                assert(s@.subrange(0, p as int)[i as int] == s@[i as int]);
            }
            return false;
        }
        i += 1;
    }
    assert(prefix@.is_prefix_of(s@)) by {
        assert(s@.subrange(0, p as int) =~= prefix@);
    }
    true
}

/// Whether `c` occurs in `s`.
pub open spec fn has_char(s: Seq<char>, c: char) -> bool
    decreases s.len(),
{
    if s.len() == 0 {
        false
    } else {
        s[0] == c || has_char(s.drop_first(), c)
    }
}

/// Index of the first occurrence of `c` in `s`; `s.len()` when absent.
pub open spec fn first_index_of(s: Seq<char>, c: char) -> int
    decreases s.len(),
{
    if s.len() == 0 {
        0
    } else if s[0] == c {
        0
    } else {
        1 + first_index_of(s.drop_first(), c)
    }
}

/// What [`has_char`] and [`first_index_of`] mean pointwise.
pub proof fn lemma_first_index_of(s: Seq<char>, c: char)
    ensures
        has_char(s, c) <==> exists|i: int| 0 <= i < s.len() && s[i] == c,
        has_char(s, c) ==> 0 <= first_index_of(s, c) < s.len(),
        has_char(s, c) ==> s[first_index_of(s, c)] == c,
        has_char(s, c) ==> forall|j: int| 0 <= j < first_index_of(s, c) ==> s[j] != c,
    decreases s.len(),
{
    if s.len() > 0 && s[0] != c {
        let rest = s.drop_first();
        lemma_first_index_of(rest, c);
        assert(forall|j: int| 0 <= j < rest.len() ==> rest[j] == s[j + 1]);
        if has_char(s, c) {
            assert(rest[first_index_of(rest, c)] == c);
            assert forall|j: int| 0 <= j < first_index_of(s, c) implies s[j] != c by {
                if j > 0 {
                    assert(rest[j - 1] == s[j]);
                }
            }
        } else {
            assert forall|i: int| 0 <= i < s.len() implies s[i] != c by {
                if i > 0 {
                    assert(rest[i - 1] == s[i]);
                }
            }
        }
    }
}

/// The pieces `s` falls into between occurrences of `sep`: always at
/// least one piece, the separators themselves dropped.
pub open spec fn split_seq(s: Seq<char>, sep: char) -> Seq<Seq<char>>
    decreases s.len(),
{
    if !has_char(s, sep) {
        seq![s]
    } else {
        let i = first_index_of(s, sep);
        if 0 <= i < s.len() {
            seq![s.subrange(0, i)] + split_seq(s.subrange(i + 1, s.len() as int), sep)
        } else {
            seq![s]
        }
    }
}

/// Index of the first occurrence of `c` in `s[from..to)`, if any.
pub fn find_char(s: &str, from: usize, to: usize, c: char) -> (r: Option<usize>)
    requires
        from <= to <= s@.len(),
    ensures
        match r {
            Some(k) => from <= k < to && s@[k as int] == c && forall|j: int|
                from <= j < k ==> s@[j] != c,
            None => forall|j: int| from <= j < to ==> s@[j] != c,
        },
{
    let mut i = from;
    while i < to
        invariant
            from <= i <= to <= s@.len(),
            forall|j: int| from <= j < i ==> s@[j] != c,
        decreases to - i,
    {
        if s.get_char(i) == c {
            return Some(i);
        }
        i += 1;
    }
    None
}

/// The decimal digits of `n`, most significant first.
pub open spec fn dec_digits(n: nat) -> Seq<char>
    decreases n,
{
    if n < 10 {
        seq![digit_char(n)]
    } else {
        dec_digits(n / 10).push(digit_char(n % 10))
    }
}

/// The character for one decimal digit.
pub open spec fn digit_char(d: nat) -> char {
    if d == 0 {
        '0'
    } else if d == 1 {
        '1'
    } else if d == 2 {
        '2'
    } else if d == 3 {
        '3'
    } else if d == 4 {
        '4'
    } else if d == 5 {
        '5'
    } else if d == 6 {
        '6'
    } else if d == 7 {
        '7'
    } else if d == 8 {
        '8'
    } else {
        '9'
    }
}

/// The one-character string for a decimal digit below ten.
fn digit_str(d: usize) -> (r: &'static str)
    requires
        d < 10,
    ensures
        r@ =~= seq![digit_char(d as nat)],
{
    proof {
        reveal_strlit("0");
        reveal_strlit("1");
        reveal_strlit("2");
        reveal_strlit("3");
        reveal_strlit("4");
        reveal_strlit("5");
        reveal_strlit("6");
        reveal_strlit("7");
        reveal_strlit("8");
        reveal_strlit("9");
    }
    if d == 0 {
        "0"
    } else if d == 1 {
        "1"
    } else if d == 2 {
        "2"
    } else if d == 3 {
        "3"
    } else if d == 4 {
        "4"
    } else if d == 5 {
        "5"
    } else if d == 6 {
        "6"
    } else if d == 7 {
        "7"
    } else if d == 8 {
        "8"
    } else {
        "9"
    }
}

/// `n` written in decimal.
pub fn usize_to_string(n: usize) -> (r: String)
    ensures
        r@ == dec_digits(n as nat),
    decreases n,
{
    if n < 10 {
        digit_str(n).to_owned()
    } else {
        let mut prefix = usize_to_string(n / 10);
        prefix.append(digit_str(n % 10));
        assert(prefix@ =~= dec_digits((n / 10) as nat).push(digit_char((n % 10) as nat)));
        prefix
    }
}

/// Artist names as they are folded into one display string: empty names
/// are skipped, and of equal names only the first is kept.
pub open spec fn dedup_non_empty(names: Seq<Seq<char>>) -> Seq<Seq<char>>
    decreases names.len(),
{
    if names.len() == 0 {
        Seq::empty()
    } else {
        let prefix = dedup_non_empty(names.drop_last());
        let last = names.last();
        if last.len() == 0 || prefix.contains(last) {
            prefix
        } else {
            prefix.push(last)
        }
    }
}

/// The parts joined with a comma-and-space separator.
pub open spec fn join_comma(parts: Seq<Seq<char>>) -> Seq<char>
    decreases parts.len(),
{
    if parts.len() == 0 {
        Seq::empty()
    } else if parts.len() == 1 {
        parts[0]
    } else {
        join_comma(parts.drop_last()) + seq![',', ' '] + parts.last()
    }
}

/// Whether one of `names` equals `value`.
pub fn contains_string(names: &Vec<String>, value: &String) -> (r: bool)
    ensures
        r == names.deep_view().contains(value@),
{
    let mut i: usize = 0;
    while i < names.len()
        invariant
            0 <= i <= names.len(),
            forall|j: int| 0 <= j < i ==> #[trigger] names.deep_view()[j] != value@,
        decreases names.len() - i,
    {
        assert(names.deep_view()[i as int] == names@[i as int]@);
        if names[i] == *value {
            assert(names.deep_view().contains(value@)) by {
                assert(names.deep_view()[i as int] == value@);
            }
            return true;
        }
        i += 1;
    }
    assert(!names.deep_view().contains(value@)) by {
        assert(forall|j: int|
            0 <= j < names.deep_view().len() ==> #[trigger] names.deep_view()[j] != value@);
    }
    false
}

/// Collects `artists` into the deduplicated, non-empty name list.
pub fn dedup_names(artists: &Vec<String>) -> (r: Vec<String>)
    ensures
        r.deep_view() == dedup_non_empty(artists.deep_view()),
{
    let ghost all = artists.deep_view();
    let mut names: Vec<String> = Vec::new();
    let mut i: usize = 0;
    assert(names.deep_view() =~= dedup_non_empty(all.take(0))) by {
        assert(all.take(0) =~= Seq::<Seq<char>>::empty());
    }
    while i < artists.len()
        invariant
            0 <= i <= artists.len(),
            all == artists.deep_view(),
            names.deep_view() == dedup_non_empty(all.take(i as int)),
        decreases artists.len() - i,
    {
        let ghost prev = names.deep_view();
        let name = &artists[i];
        assert(all.take(i + 1).drop_last() =~= all.take(i as int));
        assert(all.take(i + 1).last() == name@);
        if !name.as_str().is_empty() {
            if !contains_string(&names, name) {
                names.push(name.clone());
                assert(names.deep_view() =~= prev.push(name@));
            }
        }
        i += 1;
    }
    assert(all.take(artists.len() as int) =~= all);
    names
}

/// Joins `parts` with a comma-and-space separator.
pub fn join_with_comma(parts: &Vec<String>) -> (r: String)
    ensures
        r@ == join_comma(parts.deep_view()),
{
    let ghost all = parts.deep_view();
    let mut out = String::new();
    let mut i: usize = 0;
    while i < parts.len()
        invariant
            0 <= i <= parts.len(),
            all == parts.deep_view(),
            out@ == join_comma(all.take(i as int)),
        decreases parts.len() - i,
    {
        let ghost before = out@;
        assert(all.take(i + 1).drop_last() =~= all.take(i as int));
        assert(all.take(i + 1).last() == all[i as int]);
        if i > 0 {
            out.append(", ");
            proof {
                reveal_strlit(", ");
                assert(", "@ =~= seq![',', ' ']);
            }
        }
        out.append(parts[i].as_str());
        assert(out@ == join_comma(all.take(i + 1))) by {
            if i == 0 {
                assert(all.take(1)[0] == all[0]);
            }
        }
        i += 1;
    }
    assert(all.take(parts.len() as int) =~= all);
    out
}

} // verus!
