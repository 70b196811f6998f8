//! Character-level text utilities: ASCII case folding, substring search,
//! whitespace trimming, line splitting, decimal rendering and joining.
//!
//! Every executable function is specified against a spec-level function on
//! `Seq<char>`, the view of `str` and `String`.

use vstd::prelude::*;
use vstd::string::StringExecFns;

verus! {

/// True when `c` is an ASCII upper-case letter.
pub open spec fn spec_is_ascii_upper(c: char) -> bool {
    'A' <= c && c <= 'Z'
}

/// True when `c` is an ASCII lower-case letter.
pub open spec fn spec_is_ascii_lower(c: char) -> bool {
    'a' <= c && c <= 'z'
}

/// Lower-cases a single character, ASCII-only: `A`..`Z` map to `a`..`z`,
/// everything else is unchanged.
pub open spec fn spec_lower_char(c: char) -> char {
    if spec_is_ascii_upper(c) {
        (((c as u32) + 32) as u8) as char
    } else {
        c
    }
}

/// Upper-cases a single character, ASCII-only.
pub open spec fn spec_upper_char(c: char) -> char {
    if spec_is_ascii_lower(c) {
        (((c as u32) - 32) as u8) as char
    } else {
        c
    }
}

/// ASCII lower-casing of a character sequence.
pub open spec fn spec_lower(s: Seq<char>) -> Seq<char> {
    s.map_values(|c: char| spec_lower_char(c))
}

/// ASCII lower-casing of one character.
pub fn lower_char(c: char) -> (r: char)
    ensures
        r == spec_lower_char(c),
{
    if 'A' <= c && c <= 'Z' {
        ((c as u32 + 32) as u8) as char
    } else {
        c
    }
}

/// ASCII upper-casing of one character.
pub fn upper_char(c: char) -> (r: char)
    ensures
        r == spec_upper_char(c),
{
    if 'a' <= c && c <= 'z' {
        ((c as u32 - 32) as u8) as char
    } else {
        c
    }
}

/// Relies on `str::chars` and `Iterator::collect`: the characters of a string
/// slice, in order; `v@ == s@` holds by the definition of the view of `str`.
#[verifier::external_body]
pub(crate) fn chars_vec(s: &str) -> (v: Vec<char>)
    ensures
        v@ == s@,
{
    s.chars().collect()
}

/// Relies on `FromIterator for String` (`collect` over `char`s): builds the
/// string whose characters are exactly those of `v`, in order.
#[verifier::external_body]
pub(crate) fn string_of_chars(v: &[char]) -> (s: String)
    ensures
        s@ == v@,
{
    v.iter().collect()
}

/// ASCII lower-casing of a character vector.
pub fn lower_chars(v: &Vec<char>) -> (r: Vec<char>)
    ensures
        r@ == spec_lower(v@),
{
    let mut r: Vec<char> = Vec::new();
    let mut i: usize = 0;
    while i < v.len()
        invariant
            i <= v@.len(),
            r@ == spec_lower(v@.take(i as int)),
        decreases v@.len() - i,
    {
        let c = lower_char(v[i]);
        r.push(c);
        proof {
            assert(v@.take(i + 1) =~= v@.take(i as int).push(v@[i as int]));
            assert(spec_lower(v@.take(i + 1)) =~= spec_lower(v@.take(i as int)).push(
                spec_lower_char(v@[i as int]),
            ));
        }
        i = i + 1;
    }
    proof {
        assert(v@.take(v@.len() as int) =~= v@);
    }
    r
}

/// ASCII lower-casing, string to string.
pub fn lower_str(s: &str) -> (r: String)
    ensures
        r@ == spec_lower(s@),
{
    let v = chars_vec(s);
    let l = lower_chars(&v);
    string_of_chars(l.as_slice())
}

/// The needle `n` occurs in `h` starting at index `i`.
pub open spec fn spec_has_prefix_at(h: Seq<char>, n: Seq<char>, i: int) -> bool {
    0 <= i && i + n.len() <= h.len() && h.subrange(i, i + n.len()) == n
}

/// The needle `n` occurs somewhere in `h`.
pub open spec fn spec_contains_seq(h: Seq<char>, n: Seq<char>) -> bool {
    exists|i: int| spec_has_prefix_at(h, n, i)
}

/// `h` starts with `n`.
pub open spec fn spec_starts_with(h: Seq<char>, n: Seq<char>) -> bool {
    spec_has_prefix_at(h, n, 0)
}

/// Checks whether `n` occurs in `h` at position `i`.
pub fn matches_at(h: &Vec<char>, n: &Vec<char>, i: usize) -> (r: bool)
    requires
        i + n@.len() <= h@.len(),
    ensures
        r == spec_has_prefix_at(h@, n@, i as int),
{
    let hl = h.len();
    let mut j: usize = 0;
    while j < n.len()
        invariant
            j <= n@.len(),
            i + n@.len() <= h@.len(),
            hl == h@.len(),
            forall|k: int| 0 <= k < j ==> h@[i + k] == n@[k],
        decreases n@.len() - j,
    {
        if h[i + j] != n[j] {
            proof {
                assert(h@.subrange(i as int, i + n@.len())[j as int] == h@[i + j]);
            }
            return false;
        }
        j = j + 1;
    }
    proof {
        assert(h@.subrange(i as int, i + n@.len()) =~= n@);
    }
    true
}

/// Checks whether `h` starts with `n`.
pub fn starts_with_chars(h: &Vec<char>, n: &Vec<char>) -> (r: bool)
    ensures
        r == spec_starts_with(h@, n@),
{
    if n.len() > h.len() {
        return false;
    }
    matches_at(h, n, 0)
}

/// Substring search: does `n` occur anywhere in `h`?
pub fn contains_chars(h: &Vec<char>, n: &Vec<char>) -> (r: bool)
    ensures
        r == spec_contains_seq(h@, n@),
{
    if n.len() > h.len() {
        proof {
            assert(forall|i: int| !spec_has_prefix_at(h@, n@, i));
        }
        return false;
    }
    if n.len() == 0 {
        proof {
            assert(h@.subrange(0, 0) =~= n@);
            assert(spec_has_prefix_at(h@, n@, 0));
        }
        return true;
    }
    let mut i: usize = 0;
    while i <= h.len() - n.len()
        invariant
            1 <= n@.len() <= h@.len(),
            i <= h@.len() - n@.len() + 1,
            forall|ii: int| 0 <= ii < i ==> !spec_has_prefix_at(h@, n@, ii),
        decreases h@.len() - n@.len() + 1 - i,
    {
        if matches_at(h, n, i) {
            return true;
        }
        i = i + 1;
    }
    proof {
        assert(forall|ii: int| !spec_has_prefix_at(h@, n@, ii));
    }
    false
}

/// Substring search against a literal needle.
pub fn contains_lit(h: &Vec<char>, lit: &str) -> (r: bool)
    ensures
        r == spec_contains_seq(h@, lit@),
{
    let n = chars_vec(lit);
    contains_chars(h, &n)
}

/// True for the ASCII whitespace characters.
pub open spec fn spec_is_ws(c: char) -> bool {
    c == ' ' || c == '\t' || c == '\n' || c == '\r' || c == '\u{b}' || c == '\u{c}'
}

/// Checks whether `c` is ASCII whitespace.
pub fn is_ws(c: char) -> (r: bool)
    ensures
        r == spec_is_ws(c),
{
    c == ' ' || c == '\t' || c == '\n' || c == '\r' || c == '\u{b}' || c == '\u{c}'
}

/// `s` with its leading whitespace removed.
pub open spec fn spec_trim_start(s: Seq<char>) -> Seq<char>
    decreases s.len(),
{
    if s.len() > 0 && spec_is_ws(s[0]) {
        spec_trim_start(s.drop_first())
    } else {
        s
    }
}

/// `s` with its trailing whitespace removed.
pub open spec fn spec_trim_end(s: Seq<char>) -> Seq<char>
    decreases s.len(),
{
    if s.len() > 0 && spec_is_ws(s[s.len() - 1]) {
        spec_trim_end(s.drop_last())
    } else {
        s
    }
}

/// `s` with leading and trailing whitespace removed.
pub open spec fn spec_trim(s: Seq<char>) -> Seq<char> {
    spec_trim_end(spec_trim_start(s))
}

proof fn lemma_trim_start_skip(s: Seq<char>, a: int)
    requires
        0 <= a <= s.len(),
        forall|k: int| 0 <= k < a ==> spec_is_ws(s[k]),
        a == s.len() || !spec_is_ws(s[a]),
    ensures
        spec_trim_start(s) == s.skip(a),
    decreases a,
{
    if a == 0 {
        assert(s.skip(0) =~= s);
    } else {
        assert(spec_is_ws(s[0]));
        let t = s.drop_first();
        assert(t =~= s.skip(1));
        lemma_trim_start_skip(t, a - 1);
        assert(t.skip(a - 1) =~= s.skip(a));
    }
}

proof fn lemma_trim_end_take(s: Seq<char>, b: int)
    requires
        0 <= b <= s.len(),
        forall|k: int| b <= k < s.len() ==> spec_is_ws(s[k]),
        b == 0 || !spec_is_ws(s[b - 1]),
    ensures
        spec_trim_end(s) == s.take(b),
    decreases s.len(),
{
    if b == s.len() {
        assert(s.take(b) =~= s);
    } else {
        assert(spec_is_ws(s[s.len() - 1]));
        let t = s.drop_last();
        assert(t =~= s.take(s.len() - 1));
        lemma_trim_end_take(t, b);
        assert(t.take(b) =~= s.take(b));
    }
}

/// Removes leading and trailing ASCII whitespace from a character vector.
pub fn trim_chars(v: &Vec<char>) -> (r: Vec<char>)
    ensures
        r@ == spec_trim(v@),
{
    let mut a: usize = 0;
    while a < v.len() && is_ws(v[a])
        invariant
            a <= v@.len(),
            forall|k: int| 0 <= k < a ==> spec_is_ws(v@[k]),
        decreases v@.len() - a,
    {
        a = a + 1;
    }
    proof {
        lemma_trim_start_skip(v@, a as int);
    }
    if a == v.len() {
        proof {
            assert(v@.skip(a as int) =~= Seq::<char>::empty());
        }
        return Vec::new();
    }
    let mut b: usize = v.len();
    while b > a + 1 && is_ws(v[b - 1])
        invariant
            a < b <= v@.len(),
            forall|k: int| b <= k < v@.len() ==> spec_is_ws(v@[k]),
        decreases b,
    {
        b = b - 1;
    }
    // v[a] is not whitespace, so when the scan stops at b == a + 1 the last
    // kept character is v[a] and need not be whitespace-free checked again.
    let mut r: Vec<char> = Vec::new();
    let mut k: usize = a;
    while k < b
        invariant
            a <= k <= b <= v@.len(),
            r@ == v@.subrange(a as int, k as int),
        decreases b - k,
    {
        r.push(v[k]);
        proof {
            assert(v@.subrange(a as int, k + 1) =~= v@.subrange(a as int, k as int).push(
                v@[k as int],
            ));
        }
        k = k + 1;
    }
    proof {
        let t = v@.skip(a as int);
        assert(spec_trim_start(v@) == t);
        assert forall|kk: int| b - a <= kk < t.len() implies spec_is_ws(t[kk]) by {
            assert(t[kk] == v@[a + kk]);
        }
        if b > a + 1 {
            assert(!spec_is_ws(v@[b - 1]));
            assert(t[b - a - 1] == v@[b - 1]);
        } else {
            assert(t[b - a - 1] == v@[a as int]);
        }
        lemma_trim_end_take(t, b - a);
        assert(t.take(b - a) =~= v@.subrange(a as int, b as int));
    }
    r
}

/// Removes leading and trailing ASCII whitespace, string to string.
pub fn trim_str(s: &str) -> (r: String)
    ensures
        r@ == spec_trim(s@),
{
    let v = chars_vec(s);
    let t = trim_chars(&v);
    string_of_chars(t.as_slice())
}

/// True when `s` is empty or all whitespace.
pub open spec fn spec_is_blank(s: Seq<char>) -> bool {
    spec_trim(s).len() == 0
}

/// Checks whether `s` is empty or all whitespace.
pub fn is_blank(s: &str) -> (r: bool)
    ensures
        r == spec_is_blank(s@),
{
    let v = chars_vec(s);
    let t = trim_chars(&v);
    t.len() == 0
}

/// What follows the first occurrence of `m` in `s`, if `m` occurs at all.
pub open spec fn spec_after_first(s: Seq<char>, m: Seq<char>) -> Option<Seq<char>>
    decreases s.len(),
{
    if m.len() <= s.len() && s.take(m.len() as int) == m {
        Some(s.skip(m.len() as int))
    } else if s.len() == 0 {
        None
    } else {
        spec_after_first(s.drop_first(), m)
    }
}

proof fn lemma_after_first_at(s: Seq<char>, m: Seq<char>, i: int)
    requires
        m.len() >= 1,
        spec_has_prefix_at(s, m, i),
        forall|j: int| 0 <= j < i ==> !spec_has_prefix_at(s, m, j),
    ensures
        spec_after_first(s, m) == Some(s.skip(i + m.len())),
    decreases i,
{
    if i == 0 {
        assert(s.take(m.len() as int) =~= s.subrange(0, m.len() as int));
    } else {
        assert(!spec_has_prefix_at(s, m, 0));
        if m.len() <= s.len() {
            assert(s.take(m.len() as int) =~= s.subrange(0, m.len() as int));
        }
        assert(s.len() > 0);
        let t = s.drop_first();
        assert(t =~= s.skip(1));
        assert(t.subrange(i - 1, i - 1 + m.len()) =~= s.subrange(i, i + m.len()));
        assert(spec_has_prefix_at(t, m, i - 1));
        assert forall|j: int| 0 <= j < i - 1 implies !spec_has_prefix_at(t, m, j) by {
            if spec_has_prefix_at(t, m, j) {
                assert(t.subrange(j, j + m.len()) =~= s.subrange(j + 1, j + 1 + m.len()));
                assert(spec_has_prefix_at(s, m, j + 1));
            }
        }
        lemma_after_first_at(t, m, i - 1);
        assert(t.skip(i - 1 + m.len()) =~= s.skip(i + m.len()));
    }
}

proof fn lemma_after_first_none(s: Seq<char>, m: Seq<char>)
    requires
        m.len() >= 1,
        !spec_contains_seq(s, m),
    ensures
        spec_after_first(s, m) is None,
    decreases s.len(),
{
    assert(!spec_has_prefix_at(s, m, 0));
    if m.len() <= s.len() {
        assert(s.take(m.len() as int) =~= s.subrange(0, m.len() as int));
    }
    if s.len() > 0 {
        let t = s.drop_first();
        assert(t =~= s.skip(1));
        assert forall|j: int| !spec_has_prefix_at(t, m, j) by {
            if spec_has_prefix_at(t, m, j) {
                assert(t.subrange(j, j + m.len()) =~= s.subrange(j + 1, j + 1 + m.len()));
                assert(spec_has_prefix_at(s, m, j + 1));
            }
        }
        lemma_after_first_none(t, m);
    }
}

/// Finds the first occurrence of `n` in `h`.
pub fn find_sub(h: &Vec<char>, n: &Vec<char>) -> (r: Option<usize>)
    requires
        n@.len() >= 1,
    ensures
        match r {
            Some(i) => spec_has_prefix_at(h@, n@, i as int) && forall|j: int|
                0 <= j < i ==> !spec_has_prefix_at(h@, n@, j),
            None => !spec_contains_seq(h@, n@),
        },
{
    if n.len() > h.len() {
        proof {
            assert(forall|i: int| !spec_has_prefix_at(h@, n@, i));
        }
        return None;
    }
    let mut i: usize = 0;
    while i <= h.len() - n.len()
        invariant
            1 <= n@.len() <= h@.len(),
            i <= h@.len() - n@.len() + 1,
            forall|ii: int| 0 <= ii < i ==> !spec_has_prefix_at(h@, n@, ii),
        decreases h@.len() - n@.len() + 1 - i,
    {
        if matches_at(h, n, i) {
            return Some(i);
        }
        i = i + 1;
    }
    proof {
        assert(forall|ii: int| !spec_has_prefix_at(h@, n@, ii));
    }
    None
}

/// The text after the first occurrence of the marker, trimmed; the whole
/// text, trimmed, when the marker is absent.
pub open spec fn spec_strip_after_marker(s: Seq<char>, m: Seq<char>) -> Seq<char> {
    match spec_after_first(s, m) {
        Some(t) => spec_trim(t),
        None => spec_trim(s),
    }
}

/// Cuts everything up to and including the first occurrence of `marker` and
/// trims the rest; trims the whole string when the marker is absent.
pub fn strip_after_marker(s: &str, marker: &str) -> (r: String)
    requires
        marker@.len() >= 1,
    ensures
        r@ == spec_strip_after_marker(s@, marker@),
{
    let v = chars_vec(s);
    let m = chars_vec(marker);
    match find_sub(&v, &m) {
        Some(i) => {
            let hl = v.len();
            let mut suffix: Vec<char> = Vec::new();
            let mut k: usize = i + m.len();
            proof {
                lemma_after_first_at(v@, m@, i as int);
            }
            let start = k;
            while k < hl
                invariant
                    start <= k <= hl,
                    hl == v@.len(),
                    suffix@ == v@.subrange(start as int, k as int),
                decreases hl - k,
            {
                suffix.push(v[k]);
                proof {
                    assert(v@.subrange(start as int, k + 1) =~= v@.subrange(
                        start as int,
                        k as int,
                    ).push(v@[k as int]));
                }
                k = k + 1;
            }
            proof {
                assert(v@.subrange(start as int, hl as int) =~= v@.skip(start as int));
            }
            let t = trim_chars(&suffix);
            string_of_chars(t.as_slice())
        },
        None => {
            proof {
                lemma_after_first_none(v@, m@);
            }
            let t = trim_chars(&v);
            string_of_chars(t.as_slice())
        },
    }
}

/// The number of characters before the first `ch` (the length of `s` when
/// `ch` does not occur).
pub open spec fn spec_until(s: Seq<char>, ch: char) -> nat
    decreases s.len(),
{
    if s.len() == 0 {
        0
    } else if s[0] == ch {
        0
    } else {
        1 + spec_until(s.drop_first(), ch)
    }
}

proof fn lemma_until_at(s: Seq<char>, ch: char, i: int)
    requires
        0 <= i <= s.len(),
        forall|k: int| 0 <= k < i ==> s[k] != ch,
        i == s.len() || s[i] == ch,
    ensures
        spec_until(s, ch) == i,
    decreases i,
{
    if i == 0 {
    } else {
        let t = s.drop_first();
        assert(t =~= s.skip(1));
        lemma_until_at(t, ch, i - 1);
    }
}

pub broadcast proof fn lemma_until_le(s: Seq<char>, ch: char)
    ensures
        #[trigger] spec_until(s, ch) <= s.len(),
    decreases s.len(),
{
    if s.len() > 0 && s[0] != ch {
        lemma_until_le(s.drop_first(), ch);
    }
}

/// A line with one trailing carriage return removed.
pub open spec fn spec_strip_cr(l: Seq<char>) -> Seq<char> {
    if l.len() > 0 && l[l.len() - 1] == '\r' {
        l.drop_last()
    } else {
        l
    }
}

/// The lines of `s`: split at `\n`, with a `\r` before each split point
/// removed, and no final empty line for a trailing newline.
pub open spec fn spec_split_lines(s: Seq<char>) -> Seq<Seq<char>>
    decreases s.len(),
{
    if s.len() == 0 {
        Seq::empty()
    } else {
        let k = spec_until(s, '\n');
        if k < s.len() {
            seq![spec_strip_cr(s.take(k as int))] + spec_split_lines(s.skip(k as int + 1))
        } else {
            seq![s]
        }
    }
}

fn split_lines_chars(v: &Vec<char>, start: usize) -> (r: Vec<String>)
    requires
        start <= v@.len(),
    ensures
        r@.map_values(|x: String| x@) == spec_split_lines(v@.skip(start as int)),
    decreases v@.len() - start,
{
    broadcast use lemma_until_le;

    if start == v.len() {
        proof {
            assert(v@.skip(start as int) =~= Seq::<char>::empty());
            assert(Seq::<String>::empty().map_values(|x: String| x@) =~= Seq::<
                Seq<char>,
            >::empty());
        }
        return Vec::new();
    }
    let hl = v.len();
    let mut end: usize = start;
    while end < hl && v[end] != '\n'
        invariant
            start <= end <= hl,
            hl == v@.len(),
            forall|k: int| start <= k < end ==> v@[k] != '\n',
        decreases hl - end,
    {
        end = end + 1;
    }
    let s = Ghost(v@.skip(start as int));
    proof {
        assert forall|k: int| 0 <= k < end - start implies s@[k] != '\n' by {
            assert(s@[k] == v@[start + k]);
        }
        if end < hl {
            assert(s@[end - start] == v@[end as int]);
        }
        lemma_until_at(s@, '\n', end - start);
    }
    let has_nl = end < hl;
    let mut stop: usize = end;
    if has_nl && stop > start && v[stop - 1] == '\r' {
        stop = stop - 1;
    }
    let mut line_chars: Vec<char> = Vec::new();
    let mut k: usize = start;
    while k < stop
        invariant
            start <= k <= stop <= v@.len(),
            line_chars@ == v@.subrange(start as int, k as int),
        decreases stop - k,
    {
        line_chars.push(v[k]);
        proof {
            assert(v@.subrange(start as int, k + 1) =~= v@.subrange(start as int, k as int).push(
                v@[k as int],
            ));
        }
        k = k + 1;
    }
    let line = string_of_chars(line_chars.as_slice());
    let mut r: Vec<String> = Vec::new();
    r.push(line);
    if has_nl {
        let mut rest = split_lines_chars(v, end + 1);
        proof {
            assert(v@.skip(end + 1) =~= s@.skip(end - start + 1));
        }
        r.append(&mut rest);
    }
    proof {
        let k0 = (end - start) as int;
        if has_nl {
            assert(s@.take(k0) =~= v@.subrange(start as int, end as int));
            if end > start && v@[end - 1] == '\r' {
                assert(s@.take(k0).drop_last() =~= v@.subrange(start as int, stop as int));
                assert(spec_strip_cr(s@.take(k0)) == v@.subrange(start as int, stop as int));
            } else {
                assert(spec_strip_cr(s@.take(k0)) == v@.subrange(start as int, stop as int));
            }
            assert(r@.map_values(|x: String| x@) =~= seq![spec_strip_cr(s@.take(k0))]
                + spec_split_lines(s@.skip(k0 + 1)));
        } else {
            assert(s@ =~= v@.subrange(start as int, stop as int));
            assert(r@.map_values(|x: String| x@) =~= seq![s@]);
        }
    }
    r
}

/// Splits `s` into its lines, as `str::lines` does.
pub fn split_lines(s: &str) -> (r: Vec<String>)
    ensures
        r@.len() == spec_split_lines(s@).len(),
        forall|i: int| 0 <= i < r@.len() ==> (#[trigger] r@[i])@ == spec_split_lines(s@)[i],
{
    let v = chars_vec(s);
    let r = split_lines_chars(&v, 0);
    proof {
        assert(v@.skip(0) =~= v@);
        let m = r@.map_values(|x: String| x@);
        assert(m == spec_split_lines(s@));
        assert forall|i: int| 0 <= i < r@.len() implies (#[trigger] r@[i])@ == spec_split_lines(
            s@,
        )[i] by {
            assert(m[i] == r@[i]@);
        }
    }
    r
}

/// The decimal digit character for `d < 10`.
pub open spec fn spec_digit_char(d: nat) -> char {
    if d == 0 {
        '0'
    } else if d == 1 {
        '1'
    } else if d == 2 {
        '2'
    } else if d == 3 {
        '3'
    } else if d == 4 {
        '4'
    } else if d == 5 {
        '5'
    } else if d == 6 {
        '6'
    } else if d == 7 {
        '7'
    } else if d == 8 {
        '8'
    } else {
        '9'
    }
}

/// The decimal rendering of `n`, most significant digit first, no leading
/// zeros (except for `n == 0` itself).
pub open spec fn spec_dec_digits(n: nat) -> Seq<char>
    decreases n,
{
    if n < 10 {
        seq![spec_digit_char(n)]
    } else {
        spec_dec_digits(n / 10) + seq![spec_digit_char(n % 10)]
    }
}

fn digit_str(d: u32) -> (r: &'static str)
    requires
        d < 10,
    ensures
        r@ == seq![spec_digit_char(d as nat)],
{
    let r: &'static str = match d {
        0 => "0",
        1 => "1",
        2 => "2",
        3 => "3",
        4 => "4",
        5 => "5",
        6 => "6",
        7 => "7",
        8 => "8",
        _ => "9",
    };
    proof {
        reveal_strlit("0");
        reveal_strlit("1");
        reveal_strlit("2");
        reveal_strlit("3");
        reveal_strlit("4");
        reveal_strlit("5");
        reveal_strlit("6");
        reveal_strlit("7");
        reveal_strlit("8");
        reveal_strlit("9");
        assert(r@ =~= seq![spec_digit_char(d as nat)]);
    }
    r
}

fn push_decimal(n: u32, out: &mut String)
    ensures
        final(out)@ == old(out)@ + spec_dec_digits(n as nat),
    decreases n,
{
    if n < 10 {
        out.append(digit_str(n));
    } else {
        push_decimal(n / 10, out);
        out.append(digit_str(n % 10));
        proof {
            assert(old(out)@ + spec_dec_digits(n as nat / 10) + seq![
                spec_digit_char(n as nat % 10),
            ] =~= old(out)@ + spec_dec_digits(n as nat));
        }
    }
}

/// Renders `n` in decimal.
pub fn u32_string(n: u32) -> (r: String)
    ensures
        r@ == spec_dec_digits(n as nat),
{
    let mut s = String::new();
    push_decimal(n, &mut s);
    proof {
        assert(Seq::<char>::empty() + spec_dec_digits(n as nat) =~= spec_dec_digits(n as nat));
    }
    s
}

fn push_decimal_usize(n: usize, out: &mut String)
    ensures
        final(out)@ == old(out)@ + spec_dec_digits(n as nat),
    decreases n,
{
    if n < 10 {
        out.append(digit_str((n % 10) as u32));
    } else {
        push_decimal_usize(n / 10, out);
        out.append(digit_str((n % 10) as u32));
        proof {
            assert(old(out)@ + spec_dec_digits(n as nat / 10) + seq![
                spec_digit_char(n as nat % 10),
            ] =~= old(out)@ + spec_dec_digits(n as nat));
        }
    }
}

/// Renders `n` in decimal.
pub fn usize_string(n: usize) -> (r: String)
    ensures
        r@ == spec_dec_digits(n as nat),
{
    let mut s = String::new();
    push_decimal_usize(n, &mut s);
    proof {
        assert(Seq::<char>::empty() + spec_dec_digits(n as nat) =~= spec_dec_digits(n as nat));
    }
    s
}

/// The parts joined with `sep` between neighbours.
pub open spec fn spec_join(parts: Seq<Seq<char>>, sep: Seq<char>) -> Seq<char>
    decreases parts.len(),
{
    if parts.len() == 0 {
        Seq::empty()
    } else if parts.len() == 1 {
        parts[0]
    } else {
        parts[0] + sep + spec_join(parts.drop_first(), sep)
    }
}

proof fn lemma_join_push(parts: Seq<Seq<char>>, sep: Seq<char>, x: Seq<char>)
    ensures
        spec_join(parts.push(x), sep) == if parts.len() == 0 {
            x
        } else {
            spec_join(parts, sep) + sep + x
        },
    decreases parts.len(),
{
    let p = parts.push(x);
    if parts.len() == 0 {
        assert(p.len() == 1);
        assert(p[0] == x);
    } else if parts.len() == 1 {
        assert(p.drop_first() =~= seq![x]);
        assert(spec_join(p.drop_first(), sep) == x);
        assert(p[0] == parts[0]);
    } else {
        assert(p.drop_first() =~= parts.drop_first().push(x));
        lemma_join_push(parts.drop_first(), sep, x);
        assert(p[0] == parts[0]);
        assert(parts[0] + sep + (spec_join(parts.drop_first(), sep) + sep + x) =~= (parts[0] + sep
            + spec_join(parts.drop_first(), sep)) + sep + x);
    }
}

/// Joins strings with a separator.
pub fn join_with(parts: &Vec<String>, sep: &str) -> (r: String)
    ensures
        r@ == spec_join(parts@.map_values(|s: String| s@), sep@),
{
    let mut acc = String::new();
    let mut i: usize = 0;
    while i < parts.len()
        invariant
            i <= parts@.len(),
            acc@ == spec_join(parts@.take(i as int).map_values(|s: String| s@), sep@),
        decreases parts@.len() - i,
    {
        if i > 0 {
            acc.append(sep);
        }
        acc.append(parts[i].as_str());
        proof {
            let pm = parts@.take(i as int).map_values(|s: String| s@);
            lemma_join_push(pm, sep@, parts@[i as int]@);
            assert(parts@.take(i + 1).map_values(|s: String| s@) =~= pm.push(parts@[i as int]@));
        }
        i = i + 1;
    }
    proof {
        assert(parts@.take(parts@.len() as int) =~= parts@);
    }
    acc
}

/// `piece` repeated `n` times.
pub open spec fn spec_repeat(piece: Seq<char>, n: nat) -> Seq<char>
    decreases n,
{
    if n == 0 {
        Seq::empty()
    } else {
        spec_repeat(piece, (n - 1) as nat) + piece
    }
}

/// Repeats `piece` `n` times.
pub fn repeat_str(piece: &str, n: usize) -> (r: String)
    ensures
        r@ == spec_repeat(piece@, n as nat),
{
    let mut acc = String::new();
    let mut i: usize = 0;
    proof {
        assert(acc@ =~= spec_repeat(piece@, 0));
    }
    while i < n
        invariant
            i <= n,
            acc@ == spec_repeat(piece@, i as nat),
        decreases n - i,
    {
        acc.append(piece);
        i = i + 1;
    }
    acc
}

/// Upper-cases (ASCII) and maps the character `from` to a space: used to
/// render tags such as timelines and categories as headings.
pub open spec fn spec_heading(s: Seq<char>, from: char) -> Seq<char> {
    s.map_values(
        |c: char|
            if c == from {
                ' '
            } else {
                spec_upper_char(c)
            },
    )
}

/// Renders a tag as a heading: ASCII upper-cased, with `from` replaced by a
/// space.
pub fn heading_str(s: &str, from: char) -> (r: String)
    ensures
        r@ == spec_heading(s@, from),
{
    let v = chars_vec(s);
    let mut out: Vec<char> = Vec::new();
    let mut i: usize = 0;
    while i < v.len()
        invariant
            i <= v@.len(),
            out@ == spec_heading(v@.take(i as int), from),
        decreases v@.len() - i,
    {
        let c = v[i];
        if c == from {
            out.push(' ');
        } else {
            out.push(upper_char(c));
        }
        proof {
            assert(v@.take(i + 1) =~= v@.take(i as int).push(v@[i as int]));
            assert(spec_heading(v@.take(i + 1), from) =~= spec_heading(v@.take(i as int), from)
                .push(
                if v@[i as int] == from {
                    ' '
                } else {
                    spec_upper_char(v@[i as int])
                },
            ));
        }
        i = i + 1;
    }
    proof {
        assert(v@.take(v@.len() as int) =~= v@);
    }
    string_of_chars(out.as_slice())
}

/// The views of a sequence of strings.
pub open spec fn views_of(v: Seq<String>) -> Seq<Seq<char>> {
    v.map_values(|s: String| s@)
}

/// Two character sequences of different lengths differ.
pub proof fn lemma_seq_ne_len(a: Seq<char>, b: Seq<char>)
    requires
        a.len() != b.len(),
    ensures
        a != b,
{
}

/// Two character sequences differing at one index differ.
pub proof fn lemma_seq_ne_at(a: Seq<char>, b: Seq<char>, i: int)
    requires
        0 <= i < a.len(),
        i < b.len(),
        a[i] != b[i],
    ensures
        a != b,
{
}

/// Character-wise equality of two vectors.
pub fn eq_chars(a: &Vec<char>, b: &Vec<char>) -> (r: bool)
    ensures
        r == (a@ == b@),
{
    if a.len() != b.len() {
        return false;
    }
    let mut i: usize = 0;
    while i < a.len()
        invariant
            a@.len() == b@.len(),
            i <= a@.len(),
            forall|k: int| 0 <= k < i ==> a@[k] == b@[k],
        decreases a@.len() - i,
    {
        if a[i] != b[i] {
            return false;
        }
        i = i + 1;
    }
    proof {
        assert(a@ =~= b@);
    }
    true
}

/// Equality of two string slices.
pub fn str_eq(a: &str, b: &str) -> (r: bool)
    ensures
        r == (a@ == b@),
{
    let va = chars_vec(a);
    let vb = chars_vec(b);
    eq_chars(&va, &vb)
}

/// `s` occurs among the strings of `v`.
pub open spec fn spec_vec_has_str(v: Seq<Seq<char>>, s: Seq<char>) -> bool {
    exists|i: int| 0 <= i < v.len() && v[i] == s
}

/// Checks whether `s` occurs among the strings of `v`.
pub fn vec_contains_string(v: &Vec<String>, s: &str) -> (r: bool)
    ensures
        r == spec_vec_has_str(v@.map_values(|x: String| x@), s@),
{
    let mut i: usize = 0;
    while i < v.len()
        invariant
            i <= v@.len(),
            forall|k: int| 0 <= k < i ==> v@[k]@ != s@,
        decreases v@.len() - i,
    {
        if str_eq(v[i].as_str(), s) {
            proof {
                let m = v@.map_values(|x: String| x@);
                assert(m[i as int] == s@);
            }
            return true;
        }
        i = i + 1;
    }
    proof {
        let m = v@.map_values(|x: String| x@);
        assert(forall|k: int| 0 <= k < m.len() ==> m[k] == v@[k]@);
    }
    false
}

/// The prefix of `s` before the first `'T'`: the date part of an ISO
/// timestamp such as `2025-06-05T12:00:00Z`.
pub open spec fn spec_date_part(s: Seq<char>) -> Seq<char> {
    s.take(spec_until(s, 'T') as int)
}

/// Extracts the date part of an ISO timestamp (the prefix before `'T'`).
pub fn date_part(s: &str) -> (r: String)
    ensures
        r@ == spec_date_part(s@),
{
    broadcast use lemma_until_le;

    let v = chars_vec(s);
    let hl = v.len();
    let mut end: usize = 0;
    while end < hl && v[end] != 'T'
        invariant
            end <= hl,
            hl == v@.len(),
            forall|k: int| 0 <= k < end ==> v@[k] != 'T',
        decreases hl - end,
    {
        end = end + 1;
    }
    proof {
        lemma_until_at(v@, 'T', end as int);
    }
    let mut out: Vec<char> = Vec::new();
    let mut k: usize = 0;
    while k < end
        invariant
            k <= end <= v@.len(),
            out@ == v@.subrange(0, k as int),
        decreases end - k,
    {
        out.push(v[k]);
        proof {
            assert(v@.subrange(0, k + 1) =~= v@.subrange(0, k as int).push(v@[k as int]));
        }
        k = k + 1;
    }
    proof {
        assert(v@.subrange(0, end as int) =~= v@.take(end as int));
    }
    string_of_chars(out.as_slice())
}

} // verus!
