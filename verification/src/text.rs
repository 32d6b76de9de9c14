//! Character-level text primitives: whitespace, trimming, substring search,
//! line boundaries and decimal numerals, each with a mathematical model over
//! `Seq<char>` and an executable counterpart over `&[char]` or `&str`.

use vstd::prelude::*;
use vstd::string::StrSliceExecFns;
use vstd::string::StringExecFns;

verus! {

/// The characters with the Unicode `White_Space` property.
pub open spec fn is_whitespace(c: char) -> bool {
    ||| ('\u{9}' <= c && c <= '\u{d}')
    ||| c == ' '
    ||| c == '\u{85}'
    ||| c == '\u{a0}'
    ||| c == '\u{1680}'
    ||| ('\u{2000}' <= c && c <= '\u{200a}')
    ||| c == '\u{2028}'
    ||| c == '\u{2029}'
    ||| c == '\u{202f}'
    ||| c == '\u{205f}'
    ||| c == '\u{3000}'
}

/// Index of the first non-whitespace character of `s` at or after `from`,
/// or `s.len()` when there is none.
pub open spec fn first_non_space(s: Seq<char>, from: int) -> int
    decreases s.len() - from,
{
    if 0 <= from < s.len() && is_whitespace(s[from]) {
        first_non_space(s, from + 1)
    } else {
        from
    }
}

/// One past the last non-whitespace character of `s` in `[from, to)`, or
/// `from` when that range holds whitespace only.
pub open spec fn last_non_space_end(s: Seq<char>, from: int, to: int) -> int
    decreases to - from,
{
    if from < to <= s.len() && 0 <= from && is_whitespace(s[to - 1]) {
        last_non_space_end(s, from, to - 1)
    } else {
        to
    }
}

/// `s` without its leading and trailing whitespace.
pub open spec fn trimmed(s: Seq<char>) -> Seq<char> {
    let start = first_non_space(s, 0);
    s.subrange(start, last_non_space_end(s, start, s.len() as int))
}

/// Whether every character of `s` is whitespace (the empty text is blank).
pub open spec fn is_blank(s: Seq<char>) -> bool {
    forall|i: int| 0 <= i < s.len() ==> is_whitespace(#[trigger] s[i])
}

/// Whether `needle` stands in `hay` at position `at`.
pub open spec fn occurs_at(hay: Seq<char>, needle: Seq<char>, at: int) -> bool {
    &&& 0 <= at
    &&& at + needle.len() <= hay.len()
    &&& hay.subrange(at, at + needle.len()) == needle
}

/// Position of the first occurrence of `needle` in `hay` that starts at or
/// after `from`.
pub open spec fn find_from(hay: Seq<char>, needle: Seq<char>, from: int) -> Option<int>
    decreases hay.len() - from,
{
    if from < 0 || from + needle.len() > hay.len() {
        None
    } else if occurs_at(hay, needle, from) {
        Some(from)
    } else if from < hay.len() {
        find_from(hay, needle, from + 1)
    } else {
        None
    }
}

/// Position of the first occurrence of `needle` in `hay`.
pub open spec fn find_first(hay: Seq<char>, needle: Seq<char>) -> Option<int> {
    find_from(hay, needle, 0)
}

/// Whether `needle` occurs somewhere in `hay`.
pub open spec fn has_occurrence(hay: Seq<char>, needle: Seq<char>) -> bool {
    exists|at: int| occurs_at(hay, needle, at)
}

/// Index of the first line feed of `s` at or after `from`, or `s.len()` when
/// the rest of `s` holds none.
pub open spec fn line_end(s: Seq<char>, from: int) -> int
    decreases s.len() - from,
{
    if 0 <= from < s.len() && s[from] != '\n' {
        line_end(s, from + 1)
    } else if from < s.len() {
        from
    } else {
        s.len() as int
    }
}

/// The decimal digit `d` as a character.
pub open spec fn digit_char(d: int) -> char {
    if d == 0 {
        '0'
    } else if d == 1 {
        '1'
    } else if d == 2 {
        '2'
    } else if d == 3 {
        '3'
    } else if d == 4 {
        '4'
    } else if d == 5 {
        '5'
    } else if d == 6 {
        '6'
    } else if d == 7 {
        '7'
    } else if d == 8 {
        '8'
    } else {
        '9'
    }
}

/// The decimal numeral of `n`, without leading zeros.
pub open spec fn decimal(n: nat) -> Seq<char>
    decreases n,
{
    if n < 10 {
        seq![digit_char(n as int)]
    } else {
        decimal(n / 10).push(digit_char((n % 10) as int))
    }
}

/// `first_non_space` stays within the text and stops at the first
/// non-whitespace character.
pub proof fn lemma_first_non_space(s: Seq<char>, from: int)
    requires
        0 <= from <= s.len(),
    ensures
        from <= first_non_space(s, from) <= s.len(),
        forall|i: int| from <= i < first_non_space(s, from) ==> is_whitespace(#[trigger] s[i]),
        first_non_space(s, from) < s.len() ==> !is_whitespace(s[first_non_space(s, from)]),
    decreases s.len() - from,
{
    if from < s.len() && is_whitespace(s[from]) {
        lemma_first_non_space(s, from + 1);
    }
}

/// `last_non_space_end` stays within its range and stops just after the last
/// non-whitespace character.
pub proof fn lemma_last_non_space_end(s: Seq<char>, from: int, to: int)
    requires
        0 <= from <= to <= s.len(),
    ensures
        from <= last_non_space_end(s, from, to) <= to,
        forall|i: int|
            last_non_space_end(s, from, to) <= i < to ==> is_whitespace(#[trigger] s[i]),
        from < last_non_space_end(s, from, to) ==> !is_whitespace(
            s[last_non_space_end(s, from, to) - 1],
        ),
    decreases to - from,
{
    if from < to && is_whitespace(s[to - 1]) {
        lemma_last_non_space_end(s, from, to - 1);
    }
}

/// What trimming yields: a contiguous piece of the text, with nothing but
/// whitespace left out on either side, that neither starts nor ends with
/// whitespace.
pub proof fn lemma_trimmed(s: Seq<char>)
    ensures
        ({
            let a = first_non_space(s, 0);
            let b = last_non_space_end(s, a, s.len() as int);
            &&& 0 <= a <= b <= s.len()
            &&& trimmed(s) == s.subrange(a, b)
            &&& forall|i: int| 0 <= i < a ==> is_whitespace(#[trigger] s[i])
            &&& forall|i: int| b <= i < s.len() ==> is_whitespace(#[trigger] s[i])
        }),
        trimmed(s).len() > 0 ==> !is_whitespace(trimmed(s)[0]) && !is_whitespace(
            trimmed(s).last(),
        ),
        trimmed(s).len() == 0 <==> is_blank(s),
{
    let a = first_non_space(s, 0);
    lemma_first_non_space(s, 0);
    lemma_last_non_space_end(s, a, s.len() as int);
    let b = last_non_space_end(s, a, s.len() as int);
    if a < b {
        assert(!is_whitespace(s[a]));
        assert(trimmed(s)[0] == s[a]);
        assert(trimmed(s).last() == s[b - 1]);
    } else {
        assert forall|i: int| 0 <= i < s.len() implies is_whitespace(#[trigger] s[i]) by {
            if i >= a {
                assert(b <= i);
            }
        }
    }
}

/// What `find_from` yields: the least position at or after `from` where
/// `needle` stands, and `None` exactly when there is no such position.
pub proof fn lemma_find_from(hay: Seq<char>, needle: Seq<char>, from: int)
    requires
        0 <= from,
    ensures
        match find_from(hay, needle, from) {
            Some(at) => {
                &&& from <= at
                &&& occurs_at(hay, needle, at)
                &&& forall|j: int| from <= j < at ==> !occurs_at(hay, needle, j)
            },
            None => forall|j: int| from <= j ==> !occurs_at(hay, needle, j),
        },
    decreases hay.len() - from,
{
    if from + needle.len() > hay.len() {
    } else if occurs_at(hay, needle, from) {
    } else if from < hay.len() {
        lemma_find_from(hay, needle, from + 1);
    } else {
        assert(hay.subrange(from, from + needle.len()) =~= needle);
    }
}

/// `find_first` succeeds exactly on the texts that hold the needle.
pub proof fn lemma_find_first_iff_has_occurrence(hay: Seq<char>, needle: Seq<char>)
    ensures
        find_first(hay, needle) is Some <==> has_occurrence(hay, needle),
{
    lemma_find_from(hay, needle, 0);
    if find_first(hay, needle) is Some {
        assert(occurs_at(hay, needle, find_first(hay, needle)->0));
    }
}

/// `line_end` stays within the text, stops at a line feed or at the end, and
/// passes over no line feed on its way.
pub proof fn lemma_line_end(s: Seq<char>, from: int)
    requires
        0 <= from <= s.len(),
    ensures
        from <= line_end(s, from) <= s.len(),
        line_end(s, from) < s.len() ==> s[line_end(s, from)] == '\n',
        forall|i: int| from <= i < line_end(s, from) ==> #[trigger] s[i] != '\n',
    decreases s.len() - from,
{
    if from < s.len() && s[from] != '\n' {
        lemma_line_end(s, from + 1);
    }
}

/// Whether `c` has the Unicode `White_Space` property.
pub fn is_whitespace_char(c: char) -> (b: bool)
    ensures
        b == is_whitespace(c),
{
    (c >= '\u{9}' && c <= '\u{d}') || c == ' ' || c == '\u{85}' || c == '\u{a0}' || c
        == '\u{1680}' || (c >= '\u{2000}' && c <= '\u{200a}') || c == '\u{2028}' || c
        == '\u{2029}' || c == '\u{202f}' || c == '\u{205f}' || c == '\u{3000}'
}

/// The characters of `s`, one element each.
pub fn to_chars(s: &str) -> (v: Vec<char>)
    ensures
        v@ == s@,
{
    let mut v: Vec<char> = Vec::new();
    for c in it: s.chars()
        invariant
            v@ == it.seq().take(it.index() as int),
            it.seq() == s@,
    {
        v.push(c);
    }
    v
}

/// Whether `needle` stands in `hay` at position `at`.
pub fn matches_at(hay: &[char], needle: &[char], at: usize) -> (r: bool)
    ensures
        r == occurs_at(hay@, needle@, at as int),
{
    if needle.len() > hay.len() || at > hay.len() - needle.len() {
        return false;
    }
    let mut k: usize = 0;
    while k < needle.len()
        invariant
            k <= needle.len(),
            at + needle.len() <= hay.len(),
            forall|j: int| 0 <= j < k ==> hay@[at + j] == needle@[j],
        decreases needle.len() - k,
    {
        if hay[at + k] != needle[k] {
            proof {
                assert(hay@.subrange(at as int, at + needle.len())[k as int] == hay@[at + k]);
            }
            return false;
        }
        k += 1;
    }
    proof {
        assert(hay@.subrange(at as int, at + needle.len()) =~= needle@);
    }
    true
}

/// Position of the first occurrence of `needle` in `hay` that starts at or
/// after `from`.
pub fn find_in(hay: &[char], needle: &[char], from: usize) -> (r: Option<usize>)
    ensures
        match r {
            Some(at) => find_from(hay@, needle@, from as int) == Some(at as int),
            None => find_from(hay@, needle@, from as int) is None,
        },
{
    if needle.len() > hay.len() || from > hay.len() - needle.len() {
        return None;
    }
    let last: usize = hay.len() - needle.len();
    let mut at: usize = from;
    loop
        invariant
            from <= at <= last,
            last + needle.len() == hay.len(),
            find_from(hay@, needle@, from as int) == find_from(hay@, needle@, at as int),
        decreases last - at,
    {
        if matches_at(hay, needle, at) {
            return Some(at);
        }
        if at == last {
            proof {
                assert(hay@.len() == at || find_from(hay@, needle@, at + 1) is None);
            }
            return None;
        }
        at += 1;
    }
}

/// The bounds of `s` without its leading and trailing whitespace.
pub fn trim_bounds(s: &[char]) -> (r: (usize, usize))
    ensures
        r.0 <= r.1 <= s.len(),
        r.0 == first_non_space(s@, 0),
        r.1 == last_non_space_end(s@, r.0 as int, s.len() as int),
        s@.subrange(r.0 as int, r.1 as int) == trimmed(s@),
{
    let mut start: usize = 0;
    while start < s.len() && is_whitespace_char(s[start])
        invariant
            start <= s.len(),
            first_non_space(s@, 0) == first_non_space(s@, start as int),
        decreases s.len() - start,
    {
        start += 1;
    }
    let mut end: usize = s.len();
    while end > start && is_whitespace_char(s[end - 1])
        invariant
            start <= end <= s.len(),
            last_non_space_end(s@, start as int, s.len() as int) == last_non_space_end(
                s@,
                start as int,
                end as int,
            ),
        decreases end - start,
    {
        end -= 1;
    }
    (start, end)
}

/// Index of the first line feed of `s` at or after `from`, or `s.len()`.
pub fn line_end_in(s: &[char], from: usize) -> (r: usize)
    ensures
        r == line_end(s@, from as int),
        r <= s.len(),
        from <= s.len() ==> from <= r,
{
    if from >= s.len() {
        return s.len();
    }
    let mut at: usize = from;
    while at < s.len() && s[at] != '\n'
        invariant
            from <= at <= s.len(),
            line_end(s@, from as int) == line_end(s@, at as int),
        decreases s.len() - at,
    {
        at += 1;
    }
    at
}

/// Whether `s` is empty or holds whitespace only.
pub fn str_is_blank(s: &str) -> (r: bool)
    ensures
        r == is_blank(s@),
{
    let chars = to_chars(s);
    let bounds = trim_bounds(chars.as_slice());
    proof {
        lemma_trimmed(chars@);
    }
    bounds.0 == bounds.1
}

/// `s` without its leading and trailing whitespace.
pub fn str_trimmed(s: &str) -> (r: String)
    ensures
        r@ == trimmed(s@),
{
    let chars = to_chars(s);
    let bounds = trim_bounds(chars.as_slice());
    s.substring_char(bounds.0, bounds.1).to_owned()
}

/// Whether `needle` occurs somewhere in `hay`.
pub fn str_has_occurrence(hay: &str, needle: &str) -> (r: bool)
    ensures
        r == has_occurrence(hay@, needle@),
{
    let h = to_chars(hay);
    let n = to_chars(needle);
    proof {
        lemma_find_first_iff_has_occurrence(h@, n@);
    }
    find_in(h.as_slice(), n.as_slice(), 0).is_some()
}

/// The one-character text of the decimal digit `d`.
fn digit_str(d: u128) -> (s: &'static str)
    requires
        d < 10,
    ensures
        s@ == seq![digit_char(d as int)],
{
    proof {
        reveal_strlit("0");
        reveal_strlit("1");
        reveal_strlit("2");
        reveal_strlit("3");
        reveal_strlit("4");
        reveal_strlit("5");
        reveal_strlit("6");
        reveal_strlit("7");
        reveal_strlit("8");
        reveal_strlit("9");
    }
    let s = if d == 0 {
        "0"
    } else if d == 1 {
        "1"
    } else if d == 2 {
        "2"
    } else if d == 3 {
        "3"
    } else if d == 4 {
        "4"
    } else if d == 5 {
        "5"
    } else if d == 6 {
        "6"
    } else if d == 7 {
        "7"
    } else if d == 8 {
        "8"
    } else {
        "9"
    };
    assert(s@ =~= seq![digit_char(d as int)]);
    s
}

/// The decimal numeral of `n`, without leading zeros.
pub fn decimal_string(n: u128) -> (s: String)
    ensures
        s@ == decimal(n as nat),
    decreases n,
{
    if n < 10 {
        String::from_str(digit_str(n))
    } else {
        let mut s = decimal_string(n / 10);
        s.append(digit_str(n % 10));
        assert(s@ =~= decimal((n / 10) as nat).push(digit_char((n % 10) as int)));
        s
    }
}

} // verus!
