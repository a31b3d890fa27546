//! Character-level text handling: the mathematical meaning of the string
//! operations that the `hamachi` output parsers rely on (line splitting,
//! whitespace trimming, tokenising, substring search, splitting and joining),
//! and verified executable versions of them over `Vec<char>`.
use vstd::prelude::*;

verus! {

// ---------------------------------------------------------------------------
// Specifications
// ---------------------------------------------------------------------------

/// The Unicode `White_Space` property.
pub open spec fn is_ws(c: char) -> bool {
    ||| '\u{9}' <= c <= '\u{d}'
    ||| c == ' '
    ||| c == '\u{85}'
    ||| c == '\u{a0}'
    ||| c == '\u{1680}'
    ||| '\u{2000}' <= c <= '\u{200a}'
    ||| c == '\u{2028}'
    ||| c == '\u{2029}'
    ||| c == '\u{202f}'
    ||| c == '\u{205f}'
    ||| c == '\u{3000}'
}

/// A class of characters that a scan looks for.
#[derive(Clone, Copy)]
pub enum CharClass {
    Space,
    NonSpace,
    Is(char),
    IsNot(char),
}

pub open spec fn in_class(k: CharClass, c: char) -> bool {
    match k {
        CharClass::Space => is_ws(c),
        CharClass::NonSpace => !is_ws(c),
        CharClass::Is(d) => c == d,
        CharClass::IsNot(d) => c != d,
    }
}

/// The first index at or after `i` whose character is in class `k`,
/// or `s.len()` if there is none.
pub open spec fn scan(s: Seq<char>, i: int, k: CharClass) -> int
    decreases s.len() - i,
{
    if i >= s.len() {
        s.len() as int
    } else if in_class(k, s[i]) {
        i
    } else {
        scan(s, i + 1, k)
    }
}

/// The end of `s[lo..j]` once the whitespace at its end is dropped.
pub open spec fn trailing_end(s: Seq<char>, j: int, lo: int) -> int
    decreases j - lo,
{
    if j <= lo {
        lo
    } else if !is_ws(s[j - 1]) {
        j
    } else {
        trailing_end(s, j - 1, lo)
    }
}

/// `str::trim`: `s` without its leading and trailing whitespace.
pub open spec fn trim(s: Seq<char>) -> Seq<char> {
    let a = scan(s, 0, CharClass::NonSpace);
    s.subrange(a, trailing_end(s, s.len() as int, a))
}

/// `str::trim_start_matches(c)` for a single character `c`.
pub open spec fn strip_leading(s: Seq<char>, c: char) -> Seq<char> {
    s.skip(scan(s, 0, CharClass::IsNot(c)))
}

/// Whether `c` occurs in `s`.
pub open spec fn has_char(s: Seq<char>, c: char) -> bool {
    scan(s, 0, CharClass::Is(c)) < s.len()
}

pub open spec fn starts_with_char(s: Seq<char>, c: char) -> bool {
    s.len() > 0 && s[0] == c
}

/// A line without the carriage return of a `\r\n` ending.
pub open spec fn strip_cr(l: Seq<char>) -> Seq<char> {
    if l.len() > 0 && l.last() == '\r' {
        l.drop_last()
    } else {
        l
    }
}

/// The lines of `s` from index `i` on, as `str::lines` yields them.
pub open spec fn lines_from(s: Seq<char>, i: int) -> Seq<Seq<char>>
    decreases s.len() - i,
{
    if i < 0 || i >= s.len() {
        seq![]
    } else {
        let k = scan(s, i, CharClass::Is('\n'));
        if k < s.len() {
            proof {
                lemma_scan(s, i, CharClass::Is('\n'));
            }
            seq![strip_cr(s.subrange(i, k))] + lines_from(s, k + 1)
        } else {
            seq![s.subrange(i, s.len() as int)]
        }
    }
}

/// `str::lines`: the lines of `s`, split at `\n` or `\r\n`; the last
/// line ending is optional.
pub open spec fn lines(s: Seq<char>) -> Seq<Seq<char>> {
    lines_from(s, 0)
}

/// The whitespace-separated tokens of `s` from index `i` on.
pub open spec fn tokens_from(s: Seq<char>, i: int) -> Seq<Seq<char>>
    decreases s.len() - i,
{
    if i < 0 {
        seq![]
    } else {
        let a = scan(s, i, CharClass::NonSpace);
        if a >= s.len() {
            seq![]
        } else {
            let b = scan(s, a, CharClass::Space);
            proof {
                lemma_scan(s, i, CharClass::NonSpace);
                lemma_scan(s, a, CharClass::Space);
            }
            seq![s.subrange(a, b)] + tokens_from(s, b)
        }
    }
}

/// `str::split_whitespace`: the non-empty runs of non-whitespace characters.
pub open spec fn tokens(s: Seq<char>) -> Seq<Seq<char>> {
    tokens_from(s, 0)
}

/// `p` occurs in `s` starting at index `j`.
pub open spec fn occurs_at(s: Seq<char>, p: Seq<char>, j: int) -> bool {
    0 <= j && j + p.len() <= s.len() && s.subrange(j, j + p.len()) == p
}

/// The first index at or after `i` where `p` occurs in `s`, or -1.
pub open spec fn find_from(s: Seq<char>, p: Seq<char>, i: int) -> int
    decreases s.len() + 1 - i,
{
    if i < 0 || i > s.len() {
        -1
    } else if occurs_at(s, p, i) {
        i
    } else {
        find_from(s, p, i + 1)
    }
}

/// Whether `p` occurs in `s` (`str::contains`).
pub open spec fn contains(s: Seq<char>, p: Seq<char>) -> bool {
    find_from(s, p, 0) >= 0
}

/// The pieces of `s[i..]` between non-overlapping occurrences of a
/// non-empty `p`, found left to right (`str::split`).
pub open spec fn split_from(s: Seq<char>, p: Seq<char>, i: int) -> Seq<Seq<char>>
    decreases s.len() + 1 - i,
{
    let f = find_from(s, p, i);
    if p.len() == 0 || i < 0 || i > s.len() || f < 0 {
        seq![s.subrange(i, s.len() as int)]
    } else {
        proof {
            lemma_find_from(s, p, i);
        }
        seq![s.subrange(i, f)] + split_from(s, p, f + p.len())
    }
}

pub open spec fn split(s: Seq<char>, p: Seq<char>) -> Seq<Seq<char>> {
    split_from(s, p, 0)
}

/// The pieces of `ts` with `sep` between each two (`[&str]::join`).
pub open spec fn join(ts: Seq<Seq<char>>, sep: Seq<char>) -> Seq<char>
    decreases ts.len(),
{
    if ts.len() == 0 {
        seq![]
    } else if ts.len() == 1 {
        ts[0]
    } else {
        join(ts.drop_last(), sep) + sep + ts.last()
    }
}

/// The views of a sequence of character vectors.
pub open spec fn views(v: Seq<Vec<char>>) -> Seq<Seq<char>> {
    v.map_values(|x: Vec<char>| x@)
}

// ---------------------------------------------------------------------------
// Lemmas
// ---------------------------------------------------------------------------

/// What `scan` finds: the first character of its class, and none before it.
pub proof fn lemma_scan(s: Seq<char>, i: int, k: CharClass)
    requires
        0 <= i,
    ensures
        i <= s.len() ==> i <= scan(s, i, k) <= s.len(),
        i > s.len() ==> scan(s, i, k) == s.len(),
        scan(s, i, k) < s.len() ==> in_class(k, s[scan(s, i, k)]),
        forall|j: int| i <= j < scan(s, i, k) ==> !in_class(k, #[trigger] s[j]),
    decreases s.len() - i,
{
    if i < s.len() && !in_class(k, s[i]) {
        lemma_scan(s, i + 1, k);
    }
}

pub proof fn lemma_find_from(s: Seq<char>, p: Seq<char>, i: int)
    ensures
        find_from(s, p, i) >= 0 ==> i <= find_from(s, p, i) && occurs_at(s, p, find_from(s, p, i)),
        find_from(s, p, i) >= 0 ==> find_from(s, p, i) + p.len() <= s.len(),
        0 <= i ==> forall|j: int| i <= j && (find_from(s, p, i) < 0 || j < find_from(s, p, i))
            ==> !occurs_at(s, p, j),
    decreases s.len() + 1 - i,
{
    if 0 <= i <= s.len() && !occurs_at(s, p, i) {
        lemma_find_from(s, p, i + 1);
    }
}

/// `trailing_end` stays within `[lo, j]`.
pub proof fn lemma_trailing_end(s: Seq<char>, j: int, lo: int)
    requires
        lo <= j,
    ensures
        lo <= trailing_end(s, j, lo) <= j,
    decreases j - lo,
{
    if j > lo && is_ws(s[j - 1]) {
        lemma_trailing_end(s, j - 1, lo);
    }
}

// ---------------------------------------------------------------------------
// Trusted access to std's `String`
// ---------------------------------------------------------------------------

/// Calls `String::push`, which appends one character to the string.
#[verifier::external_body]
pub(crate) fn push_char(s: &mut String, c: char)
    ensures
        final(s)@ == old(s)@.push(c),
{
    s.push(c);
}

/// Calls `String::pop`, which removes and returns the last character, or
/// returns `None` for an empty string.
#[verifier::external_body]
pub(crate) fn pop_char(s: &mut String) -> (r: Option<char>)
    ensures
        old(s)@.len() == 0 ==> r is None && final(s)@ == old(s)@,
        old(s)@.len() > 0 ==> r == Some(old(s)@.last()) && final(s)@ == old(s)@.drop_last(),
{
    s.pop()
}

// ---------------------------------------------------------------------------
// Executable helpers
// ---------------------------------------------------------------------------

/// Collects the characters of a string slice.
pub fn chars_of(s: &str) -> (r: Vec<char>)
    ensures
        r@ == s@,
{
    let mut r: Vec<char> = Vec::new();
    for c in it: s.chars()
        invariant
            r@ == it.seq().take(it.index() as int),
            it.seq() == s@,
    {
        r.push(c);
    }
    r
}

/// A `String` holding the characters of `v`.
pub fn string_of(v: &Vec<char>) -> (r: String)
    ensures
        r@ == v@,
{
    let mut r = String::new();
    let mut i: usize = 0;
    while i < v.len()
        invariant
            i <= v.len(),
            r@ == v@.take(i as int),
        decreases v.len() - i,
    {
        push_char(&mut r, v[i]);
        assert(v@.take(i + 1) == v@.take(i as int).push(v@[i as int]));
        i = i + 1;
    }
    assert(v@.take(v.len() as int) == v@);
    r
}

/// `is_ws` as code.
pub fn is_whitespace(c: char) -> (b: bool)
    ensures
        b == is_ws(c),
{
    ('\u{9}' <= c && c <= '\u{d}') || c == ' ' || c == '\u{85}' || c == '\u{a0}' || c == '\u{1680}'
        || ('\u{2000}' <= c && c <= '\u{200a}') || c == '\u{2028}' || c == '\u{2029}' || c
        == '\u{202f}' || c == '\u{205f}' || c == '\u{3000}'
}

fn class_holds(k: CharClass, c: char) -> (b: bool)
    ensures
        b == in_class(k, c),
{
    match k {
        CharClass::Space => is_whitespace(c),
        CharClass::NonSpace => !is_whitespace(c),
        CharClass::Is(d) => c == d,
        CharClass::IsNot(d) => c != d,
    }
}

/// `scan` as code.
pub fn scan_from(s: &Vec<char>, i: usize, k: CharClass) -> (r: usize)
    ensures
        r == scan(s@, i as int, k),
{
    let mut j = i;
    if j > s.len() {
        return s.len();
    }
    while j < s.len()
        invariant
            i <= j <= s.len(),
            scan(s@, j as int, k) == scan(s@, i as int, k),
        decreases s.len() - j,
    {
        if class_holds(k, s[j]) {
            return j;
        }
        j = j + 1;
    }
    j
}

/// The characters `v[lo..hi]`.
pub fn slice_of(v: &Vec<char>, lo: usize, hi: usize) -> (r: Vec<char>)
    requires
        lo <= hi <= v.len(),
    ensures
        r@ == v@.subrange(lo as int, hi as int),
{
    let mut r: Vec<char> = Vec::new();
    let mut i = lo;
    while i < hi
        invariant
            lo <= i <= hi <= v.len(),
            r@ == v@.subrange(lo as int, i as int),
        decreases hi - i,
    {
        r.push(v[i]);
        assert(v@.subrange(lo as int, i + 1) == v@.subrange(lo as int, i as int).push(v@[i as int]));
        i = i + 1;
    }
    r
}

/// `trim` as code.
pub fn trim_chars(s: &Vec<char>) -> (r: Vec<char>)
    ensures
        r@ == trim(s@),
{
    let a = scan_from(s, 0, CharClass::NonSpace);
    proof {
        lemma_scan(s@, 0, CharClass::NonSpace);
    }
    let mut b = s.len();
    while b > a && is_whitespace(s[b - 1])
        invariant
            a <= b <= s.len(),
            trailing_end(s@, b as int, a as int) == trailing_end(s@, s.len() as int, a as int),
        decreases b,
    {
        b = b - 1;
    }
    slice_of(s, a, b)
}

/// `strip_leading` as code.
pub fn strip_leading_chars(s: &Vec<char>, c: char) -> (r: Vec<char>)
    ensures
        r@ == strip_leading(s@, c),
{
    let a = scan_from(s, 0, CharClass::IsNot(c));
    proof {
        lemma_scan(s@, 0, CharClass::IsNot(c));
    }
    slice_of(s, a, s.len())
}

/// Whether `p` occurs in `s` at index `j`.
fn occurs_at_exec(s: &Vec<char>, p: &Vec<char>, j: usize) -> (b: bool)
    ensures
        b == occurs_at(s@, p@, j as int),
{
    if j > s.len() || p.len() > s.len() - j {
        return false;
    }
    let mut i: usize = 0;
    while i < p.len()
        invariant
            j + p.len() <= s.len(),
            i <= p.len(),
            forall|m: int| 0 <= m < i ==> s@[j + m] == p@[m],
        decreases p.len() - i,
    {
        if s[j + i] != p[i] {
            assert(s@.subrange(j as int, j + p.len())[i as int] != p@[i as int]);
            return false;
        }
        i = i + 1;
    }
    assert(s@.subrange(j as int, j + p.len()) =~= p@);
    true
}

/// `find_from` as code: `Some(j)` for a non-negative result, `None` for -1.
pub fn find_pattern(s: &Vec<char>, p: &Vec<char>, i: usize) -> (r: Option<usize>)
    ensures
        match r {
            Some(j) => j == find_from(s@, p@, i as int),
            None => find_from(s@, p@, i as int) < 0,
        },
{
    if i > s.len() {
        return None;
    }
    let mut j = i;
    while j < s.len()
        invariant
            i <= j <= s.len(),
            find_from(s@, p@, j as int) == find_from(s@, p@, i as int),
        decreases s.len() - j,
    {
        if occurs_at_exec(s, p, j) {
            return Some(j);
        }
        j = j + 1;
    }
    if occurs_at_exec(s, p, j) {
        return Some(j);
    }
    assert(find_from(s@, p@, j + 1) == -1);
    None
}

/// `contains` as code.
pub fn contains_chars(s: &Vec<char>, p: &Vec<char>) -> (b: bool)
    ensures
        b == contains(s@, p@),
{
    match find_pattern(s, p, 0) {
        Some(_) => true,
        None => false,
    }
}

/// Whether two character vectors are equal.
pub fn same_chars(a: &Vec<char>, b: &Vec<char>) -> (r: bool)
    ensures
        r == (a@ == b@),
{
    if a.len() != b.len() {
        return false;
    }
    let mut i: usize = 0;
    while i < a.len()
        invariant
            a.len() == b.len(),
            i <= a.len(),
            forall|m: int| 0 <= m < i ==> a@[m] == b@[m],
        decreases a.len() - i,
    {
        if a[i] != b[i] {
            return false;
        }
        i = i + 1;
    }
    assert(a@ =~= b@);
    true
}

/// `lines` as code.
pub fn split_lines(s: &Vec<char>) -> (r: Vec<Vec<char>>)
    ensures
        views(r@) == lines(s@),
{
    let mut r: Vec<Vec<char>> = Vec::new();
    let mut i: usize = 0;
    while i < s.len()
        invariant
            i <= s.len(),
            views(r@) + lines_from(s@, i as int) == lines(s@),
        decreases s.len() - i,
    {
        let k = scan_from(s, i, CharClass::Is('\n'));
        proof {
            lemma_scan(s@, i as int, CharClass::Is('\n'));
        }
        let ghost before = views(r@);
        if k < s.len() {
            let mut l = slice_of(s, i, k);
            if l.len() > 0 && l[l.len() - 1] == '\r' {
                l.pop();
            }
            r.push(l);
            assert(views(r@) == before.push(strip_cr(s@.subrange(i as int, k as int))));
            assert(lines_from(s@, i as int) == seq![strip_cr(s@.subrange(i as int, k as int))]
                + lines_from(s@, k + 1));
            assert(before + lines_from(s@, i as int) == views(r@) + lines_from(s@, k + 1));
            i = k + 1;
        } else {
            let l = slice_of(s, i, s.len());
            r.push(l);
            assert(views(r@) == before.push(s@.subrange(i as int, s.len() as int)));
            assert(lines_from(s@, s.len() as int) == Seq::<Seq<char>>::empty());
            assert(views(r@) + lines_from(s@, s.len() as int) == views(r@));
            i = s.len();
        }
    }
    assert(lines_from(s@, i as int) == Seq::<Seq<char>>::empty());
    assert(views(r@) + lines_from(s@, i as int) == views(r@));
    r
}

/// `tokens` as code.
pub fn split_whitespace(s: &Vec<char>) -> (r: Vec<Vec<char>>)
    ensures
        views(r@) == tokens(s@),
{
    let mut r: Vec<Vec<char>> = Vec::new();
    let mut i: usize = 0;
    loop
        invariant
            i <= s.len(),
            views(r@) + tokens_from(s@, i as int) == tokens(s@),
        decreases s.len() - i,
    {
        let a = scan_from(s, i, CharClass::NonSpace);
        proof {
            lemma_scan(s@, i as int, CharClass::NonSpace);
        }
        if a >= s.len() {
            assert(tokens_from(s@, i as int) == Seq::<Seq<char>>::empty());
            assert(views(r@) + tokens_from(s@, i as int) == views(r@));
            return r;
        }
        let b = scan_from(s, a, CharClass::Space);
        proof {
            lemma_scan(s@, a as int, CharClass::Space);
        }
        let ghost before = views(r@);
        let t = slice_of(s, a, b);
        r.push(t);
        assert(views(r@) == before.push(s@.subrange(a as int, b as int)));
        assert(tokens_from(s@, i as int) == seq![s@.subrange(a as int, b as int)] + tokens_from(
            s@,
            b as int,
        ));
        assert(before + tokens_from(s@, i as int) == views(r@) + tokens_from(s@, b as int));
        i = b;
    }
}

} // verus!
