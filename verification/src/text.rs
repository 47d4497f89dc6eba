//! Text primitives over character sequences: trimming, splitting, searching.
//!
//! Every operation works on `Vec<char>` / `&[char]` and is specified over
//! `Seq<char>` by a spec function that states the operation directly.
use vstd::prelude::*;

verus! {

// ---------------------------------------------------------------------------
// Specifications
// ---------------------------------------------------------------------------

/// Unicode `White_Space` (the property `char::is_whitespace` tests).
pub open spec fn is_ws(c: char) -> bool {
    ||| ('\u{9}' <= c && c <= '\u{d}')
    ||| c == ' '
    ||| c == '\u{85}'
    ||| c == '\u{a0}'
    ||| c == '\u{1680}'
    ||| ('\u{2000}' <= c && c <= '\u{200a}')
    ||| c == '\u{2028}'
    ||| c == '\u{2029}'
    ||| c == '\u{202f}'
    ||| c == '\u{205f}'
    ||| c == '\u{3000}'
}

/// `s` without its leading whitespace.
pub open spec fn trim_start(s: Seq<char>) -> Seq<char>
    decreases s.len(),
{
    if s.len() > 0 && is_ws(s[0]) {
        trim_start(s.drop_first())
    } else {
        s
    }
}

/// `s` without its trailing whitespace.
pub open spec fn trim_end(s: Seq<char>) -> Seq<char>
    decreases s.len(),
{
    if s.len() > 0 && is_ws(s.last()) {
        trim_end(s.drop_last())
    } else {
        s
    }
}

/// `s` without leading and trailing whitespace (`str::trim`).
pub open spec fn trim(s: Seq<char>) -> Seq<char> {
    trim_end(trim_start(s))
}

/// `s` without the leading characters equal to `c` (`str::trim_start_matches(c)`).
pub open spec fn trim_start_char(s: Seq<char>, c: char) -> Seq<char>
    decreases s.len(),
{
    if s.len() > 0 && s[0] == c {
        trim_start_char(s.drop_first(), c)
    } else {
        s
    }
}

/// `s` without the trailing characters equal to `c` (`str::trim_end_matches(c)`).
pub open spec fn trim_end_char(s: Seq<char>, c: char) -> Seq<char>
    decreases s.len(),
{
    if s.len() > 0 && s.last() == c {
        trim_end_char(s.drop_last(), c)
    } else {
        s
    }
}

/// `str::trim_matches(c)`.
pub open spec fn trim_char(s: Seq<char>, c: char) -> Seq<char> {
    trim_end_char(trim_start_char(s, c), c)
}

/// The pieces of `s` between occurrences of `sep` (`str::split(sep)`): never empty.
pub open spec fn split(s: Seq<char>, sep: char) -> Seq<Seq<char>>
    decreases s.len(),
{
    if s.len() == 0 {
        seq![Seq::<char>::empty()]
    } else {
        let r = split(s.drop_last(), sep);
        if s.last() == sep {
            r.push(Seq::<char>::empty())
        } else {
            r.update(r.len() - 1, r.last().push(s.last()))
        }
    }
}

/// `p` without one trailing carriage return.
pub open spec fn strip_cr(p: Seq<char>) -> Seq<char> {
    if p.len() > 0 && p.last() == '\r' {
        p.drop_last()
    } else {
        p
    }
}

/// `str::lines`: pieces between `\n` (a final empty piece is not a line); a line
/// that ended in `\r\n` loses its `\r`.
pub open spec fn lines(s: Seq<char>) -> Seq<Seq<char>> {
    let p = split(s, '\n');
    let n: int = if p.last().len() == 0 { p.len() - 1 } else { p.len() as int };
    Seq::new(n as nat, |i: int| if i < p.len() - 1 { strip_cr(p[i]) } else { p[i] })
}

/// `p` occurs in `s` at position `i`.
pub open spec fn occurs_at(s: Seq<char>, p: Seq<char>, i: int) -> bool {
    0 <= i && i + p.len() <= s.len() && s.subrange(i, i + p.len()) == p
}

/// `str::contains(p)`.
pub open spec fn contains(s: Seq<char>, p: Seq<char>) -> bool {
    exists|i: int| occurs_at(s, p, i)
}

/// `str::starts_with(p)`.
pub open spec fn starts_with(s: Seq<char>, p: Seq<char>) -> bool {
    occurs_at(s, p, 0)
}

/// Position of the first occurrence of `p` in `s` at or after `i`, or -1.
pub open spec fn find_from(s: Seq<char>, p: Seq<char>, i: int) -> int
    decreases s.len() + 1 - i,
{
    if i < 0 || i + p.len() > s.len() {
        -1
    } else if occurs_at(s, p, i) {
        i
    } else {
        find_from(s, p, i + 1)
    }
}

/// Position of the first occurrence of `p` in `s`, or -1 (`str::find`).
pub open spec fn find(s: Seq<char>, p: Seq<char>) -> int {
    find_from(s, p, 0)
}

/// `str::split_once(p)`.
pub open spec fn split_once(s: Seq<char>, p: Seq<char>) -> Option<(Seq<char>, Seq<char>)> {
    let i = find(s, p);
    if i < 0 {
        None
    } else {
        Some((s.take(i), s.skip(i + p.len())))
    }
}

/// Position of the last occurrence of `c` in `s` before position `n`, or -1.
pub open spec fn rfind_char_before(s: Seq<char>, c: char, n: int) -> int
    decreases n,
{
    if n <= 0 {
        -1
    } else if s[n - 1] == c {
        n - 1
    } else {
        rfind_char_before(s, c, n - 1)
    }
}

/// `str::rsplit_once(c)`.
pub open spec fn rsplit_once_char(s: Seq<char>, c: char) -> Option<(Seq<char>, Seq<char>)> {
    let i = rfind_char_before(s, c, s.len() as int);
    if i < 0 {
        None
    } else {
        Some((s.take(i), s.skip(i + 1)))
    }
}

/// The pieces of `s` between whitespace characters, empty pieces included.
pub open spec fn split_ws_all(s: Seq<char>) -> Seq<Seq<char>>
    decreases s.len(),
{
    if s.len() == 0 {
        seq![Seq::<char>::empty()]
    } else {
        let r = split_ws_all(s.drop_last());
        if is_ws(s.last()) {
            r.push(Seq::<char>::empty())
        } else {
            r.update(r.len() - 1, r.last().push(s.last()))
        }
    }
}

/// `str::split_whitespace`: the non-empty pieces between whitespace.
pub open spec fn split_whitespace(s: Seq<char>) -> Seq<Seq<char>> {
    split_ws_all(s).filter(|p: Seq<char>| p.len() > 0)
}

/// `parts` joined with `sep` in between (`[String]::join`).
pub open spec fn join(parts: Seq<Seq<char>>, sep: Seq<char>) -> Seq<char>
    decreases parts.len(),
{
    if parts.len() == 0 {
        Seq::<char>::empty()
    } else if parts.len() == 1 {
        parts[0]
    } else {
        join(parts.drop_last(), sep) + sep + parts.last()
    }
}

/// The views of a vector of strings.
pub open spec fn views(v: Seq<String>) -> Seq<Seq<char>> {
    v.map_values(|s: String| s@)
}

// ---------------------------------------------------------------------------
// Lemmas
// ---------------------------------------------------------------------------

proof fn lemma_split_len(s: Seq<char>, sep: char)
    ensures
        split(s, sep).len() >= 1,
    decreases s.len(),
{
    if s.len() > 0 {
        lemma_split_len(s.drop_last(), sep);
    }
}

proof fn lemma_split_ws_all_len(s: Seq<char>)
    ensures
        split_ws_all(s).len() >= 1,
    decreases s.len(),
{
    if s.len() > 0 {
        lemma_split_ws_all_len(s.drop_last());
    }
}

proof fn lemma_find_from_range(s: Seq<char>, p: Seq<char>, i: int)
    ensures
        find_from(s, p, i) == -1 || (i <= find_from(s, p, i) && occurs_at(s, p, find_from(s, p, i))),
        find_from(s, p, i) >= 0 ==> forall|j: int| i <= j < find_from(s, p, i) ==> !occurs_at(s, p, j),
        find_from(s, p, i) == -1 && i >= 0 ==> forall|j: int| i <= j ==> !occurs_at(s, p, j),
    decreases s.len() + 1 - i,
{
    if i < 0 || i + p.len() > s.len() {
    } else if occurs_at(s, p, i) {
    } else {
        lemma_find_from_range(s, p, i + 1);
    }
}

/// A successful `find` points at an occurrence.
pub proof fn lemma_find_in_range(s: Seq<char>, p: Seq<char>)
    ensures
        find(s, p) >= 0 ==> occurs_at(s, p, find(s, p)),
        find(s, p) >= -1,
{
    lemma_find_from_range(s, p, 0);
}

/// `contains` holds exactly when `find` succeeds.
pub proof fn lemma_contains_find(s: Seq<char>, p: Seq<char>)
    ensures
        contains(s, p) <==> find(s, p) >= 0,
{
    lemma_find_from_range(s, p, 0);
    if find(s, p) >= 0 {
        assert(occurs_at(s, p, find(s, p)));
    }
}

proof fn lemma_rfind_range(s: Seq<char>, c: char, n: int)
    requires
        0 <= n <= s.len(),
    ensures
        rfind_char_before(s, c, n) < n,
        rfind_char_before(s, c, n) >= 0 ==> s[rfind_char_before(s, c, n)] == c,
        rfind_char_before(s, c, n) >= -1,
    decreases n,
{
    if n > 0 && s[n - 1] != c {
        lemma_rfind_range(s, c, n - 1);
    }
}

proof fn lemma_trim_start_shape(s: Seq<char>)
    ensures
        exists|k: int| 0 <= k <= s.len() && trim_start(s) == s.skip(k),
    decreases s.len(),
{
    if s.len() > 0 && is_ws(s[0]) {
        lemma_trim_start_shape(s.drop_first());
        let k = choose|k: int| 0 <= k <= s.drop_first().len() && trim_start(s.drop_first()) == s.drop_first().skip(k);
        assert(s.drop_first().skip(k) =~= s.skip(k + 1));
    } else {
        assert(s.skip(0) =~= s);
    }
}

// ---------------------------------------------------------------------------
// Executable operations
// ---------------------------------------------------------------------------

/// Appends one character to a `String` (`String::push`).
#[verifier::external_body]
pub fn push_char(s: &mut String, c: char)
    ensures
        final(s)@ == old(s)@.push(c),
{
    s.push(c)
}

/// The characters of a string slice, in order.
pub fn chars_of(s: &str) -> (v: Vec<char>)
    ensures
        v@ == s@,
{
    let mut v: Vec<char> = Vec::new();
    for c in it: s.chars()
        invariant
            v@ == it.history(),
    {
        v.push(c);
    }
    v
}

/// A `String` holding exactly the characters `cs`.
pub fn string_of(cs: &[char]) -> (s: String)
    ensures
        s@ == cs@,
{
    let mut s = String::new();
    let mut i: usize = 0;
    while i < cs.len()
        invariant
            i <= cs@.len(),
            s@ == cs@.take(i as int),
        decreases cs@.len() - i,
    {
        push_char(&mut s, cs[i]);
        proof {
            assert(cs@.take(i as int).push(cs@[i as int]) =~= cs@.take(i + 1));
        }
        i = i + 1;
    }
    proof {
        assert(cs@.take(cs@.len() as int) =~= cs@);
    }
    s
}

/// A `String` holding the characters of `t`.
pub fn string_from(t: &str) -> (s: String)
    ensures
        s@ == t@,
{
    let cs = chars_of(t);
    string_of(cs.as_slice())
}

/// Appends the characters `cs` to `s`.
pub fn push_chars(s: &mut String, cs: &[char])
    ensures
        final(s)@ == old(s)@ + cs@,
{
    let mut i: usize = 0;
    while i < cs.len()
        invariant
            i <= cs@.len(),
            s@ == old(s)@ + cs@.take(i as int),
        decreases cs@.len() - i,
    {
        push_char(s, cs[i]);
        proof {
            assert(cs@.take(i as int).push(cs@[i as int]) =~= cs@.take(i + 1));
            assert(old(s)@ + cs@.take(i as int).push(cs@[i as int]) =~= (old(s)@ + cs@.take(i as int)).push(cs@[i as int]));
        }
        i = i + 1;
    }
    proof {
        assert(cs@.take(cs@.len() as int) =~= cs@);
    }
}

/// Appends the characters of `t` to `s`.
pub fn push_str(s: &mut String, t: &str)
    ensures
        final(s)@ == old(s)@ + t@,
{
    let cs = chars_of(t);
    push_chars(s, cs.as_slice());
}

/// A copy of the characters of `s` from `lo` up to `hi`.
pub fn slice_chars(s: &[char], lo: usize, hi: usize) -> (r: Vec<char>)
    requires
        lo <= hi <= s@.len(),
    ensures
        r@ == s@.subrange(lo as int, hi as int),
{
    let mut r: Vec<char> = Vec::new();
    let mut i = lo;
    while i < hi
        invariant
            lo <= i <= hi <= s@.len(),
            r@ == s@.subrange(lo as int, i as int),
        decreases hi - i,
    {
        r.push(s[i]);
        proof {
            assert(s@.subrange(lo as int, i as int).push(s@[i as int]) =~= s@.subrange(lo as int, i + 1));
        }
        i = i + 1;
    }
    r
}

/// Whether two character sequences are equal.
pub fn chars_eq(a: &[char], b: &[char]) -> (r: bool)
    ensures
        r == (a@ == b@),
{
    if a.len() != b.len() {
        return false;
    }
    let mut i: usize = 0;
    while i < a.len()
        invariant
            a@.len() == b@.len(),
            i <= a@.len(),
            forall|j: int| 0 <= j < i ==> a@[j] == b@[j],
        decreases a@.len() - i,
    {
        if a[i] != b[i] {
            return false;
        }
        i = i + 1;
    }
    proof {
        assert(a@ =~= b@);
    }
    true
}

/// Whether the characters `a` spell the string `b`.
pub fn chars_eq_str(a: &[char], b: &str) -> (r: bool)
    ensures
        r == (a@ == b@),
{
    let bc = chars_of(b);
    chars_eq(a, bc.as_slice())
}

/// Whether two strings are equal.
pub fn str_eq(a: &str, b: &str) -> (r: bool)
    ensures
        r == (a@ == b@),
{
    let ac = chars_of(a);
    chars_eq_str(ac.as_slice(), b)
}

/// Whether `c` is whitespace (`char::is_whitespace`).
pub fn is_ws_char(c: char) -> (r: bool)
    ensures
        r == is_ws(c),
{
    ('\u{9}' <= c && c <= '\u{d}') || c == ' ' || c == '\u{85}' || c == '\u{a0}' || c
        == '\u{1680}' || ('\u{2000}' <= c && c <= '\u{200a}') || c == '\u{2028}' || c
        == '\u{2029}' || c == '\u{202f}' || c == '\u{205f}' || c == '\u{3000}'
}

proof fn lemma_trim_start_skip(s: Seq<char>, k: int)
    requires
        0 <= k <= s.len(),
        forall|j: int| 0 <= j < k ==> is_ws(s[j]),
    ensures
        trim_start(s) == trim_start(s.skip(k)),
    decreases k,
{
    if k > 0 {
        assert(s.drop_first().skip(k - 1) =~= s.skip(k));
        lemma_trim_start_skip(s.drop_first(), k - 1);
    } else {
        assert(s.skip(0) =~= s);
    }
}

proof fn lemma_trim_end_take(s: Seq<char>, k: int)
    requires
        0 <= k <= s.len(),
        forall|j: int| k <= j < s.len() ==> is_ws(s[j]),
    ensures
        trim_end(s) == trim_end(s.take(k)),
    decreases s.len() - k,
{
    if k < s.len() {
        assert(s.drop_last().take(k) =~= s.take(k));
        lemma_trim_end_take(s.drop_last(), k);
    } else {
        assert(s.take(k) =~= s);
    }
}

/// `str::trim`.
pub fn trim_chars(s: &[char]) -> (r: Vec<char>)
    ensures
        r@ == trim(s@),
{
    let mut lo: usize = 0;
    while lo < s.len() && is_ws_char(s[lo])
        invariant
            lo <= s@.len(),
            forall|j: int| 0 <= j < lo ==> is_ws(s@[j]),
        decreases s@.len() - lo,
    {
        lo = lo + 1;
    }
    let mut hi: usize = s.len();
    while hi > lo && is_ws_char(s[hi - 1])
        invariant
            lo <= hi <= s@.len(),
            forall|j: int| hi <= j < s@.len() ==> is_ws(s@[j]),
        decreases hi,
    {
        hi = hi - 1;
    }
    proof {
        lemma_trim_start_skip(s@, lo as int);
        let t = s@.skip(lo as int);
        if lo < s@.len() {
            assert(!is_ws(t[0]));
        }
        assert(trim_start(t) == t);
        assert forall|j: int| hi - lo <= j < t.len() implies is_ws(t[j]) by {
            assert(t[j] == s@[j + lo]);
        }
        lemma_trim_end_take(t, hi - lo);
        let u = t.take(hi - lo);
        if hi > lo {
            assert(u.last() == s@[hi - 1]);
        }
        assert(trim_end(u) == u);
        assert(u =~= s@.subrange(lo as int, hi as int));
    }
    slice_chars(s, lo, hi)
}

/// `str::trim` on a string slice, as characters.
pub fn trim_str(s: &str) -> (r: Vec<char>)
    ensures
        r@ == trim(s@),
{
    let cs = chars_of(s);
    trim_chars(cs.as_slice())
}

/// `str::trim_start_matches(c)`.
pub fn trim_start_char_exec(s: &[char], c: char) -> (r: Vec<char>)
    ensures
        r@ == trim_start_char(s@, c),
{
    let mut lo: usize = 0;
    proof {
        assert(s@.skip(0) =~= s@);
    }
    while lo < s.len() && s[lo] == c
        invariant
            lo <= s@.len(),
            trim_start_char(s@, c) == trim_start_char(s@.skip(lo as int), c),
        decreases s@.len() - lo,
    {
        proof {
            assert(s@.skip(lo as int).drop_first() =~= s@.skip(lo + 1));
        }
        lo = lo + 1;
    }
    proof {
        assert(s@.skip(0) =~= s@);
    }
    slice_chars(s, lo, s.len())
}

/// `str::trim_end_matches(c)`.
pub fn trim_end_char_exec(s: &[char], c: char) -> (r: Vec<char>)
    ensures
        r@ == trim_end_char(s@, c),
{
    let mut hi: usize = s.len();
    proof {
        assert(s@.take(s@.len() as int) =~= s@);
    }
    while hi > 0 && s[hi - 1] == c
        invariant
            hi <= s@.len(),
            trim_end_char(s@, c) == trim_end_char(s@.take(hi as int), c),
        decreases hi,
    {
        proof {
            assert(s@.take(hi as int).drop_last() =~= s@.take(hi - 1));
        }
        hi = hi - 1;
    }
    proof {
        assert(s@.take(s@.len() as int) =~= s@);
        assert(s@.subrange(0, hi as int) =~= s@.take(hi as int));
    }
    slice_chars(s, 0, hi)
}

/// `str::trim_matches(c)`.
pub fn trim_char_exec(s: &[char], c: char) -> (r: Vec<char>)
    ensures
        r@ == trim_char(s@, c),
{
    let a = trim_start_char_exec(s, c);
    trim_end_char_exec(a.as_slice(), c)
}

/// Whether `p` occurs in `s` at position `i`.
pub fn occurs_at_exec(s: &[char], p: &[char], i: usize) -> (r: bool)
    ensures
        r == occurs_at(s@, p@, i as int),
{
    if i > s.len() || p.len() > s.len() - i {
        return false;
    }
    let mut j: usize = 0;
    while j < p.len()
        invariant
            i + p@.len() <= s@.len(),
            s@.len() <= usize::MAX,
            j <= p@.len(),
            forall|k: int| 0 <= k < j ==> s@[i + k] == p@[k],
        decreases p@.len() - j,
    {
        if s[i + j] != p[j] {
            assert(s@.subrange(i as int, i + p@.len())[j as int] != p@[j as int]);
            return false;
        }
        j = j + 1;
    }
    assert(s@.subrange(i as int, i + p@.len()) =~= p@);
    true
}

/// `str::find`: the first position of `p` in `s`, if any.
pub fn find_exec(s: &[char], p: &[char]) -> (r: Option<usize>)
    ensures
        match r {
            Some(i) => i as int == find(s@, p@),
            None => find(s@, p@) == -1,
        },
{
    if p.len() > s.len() {
        return None;
    }
    let mut i: usize = 0;
    while i <= s.len() - p.len()
        invariant
            p@.len() <= s@.len(),
            i <= s@.len() - p@.len() + 1,
            p@.len() > 0 || i == 0,
            find(s@, p@) == find_from(s@, p@, i as int),
        decreases s@.len() - p@.len() + 1 - i,
    {
        if occurs_at_exec(s, p, i) {
            return Some(i);
        }
        proof {
            if p@.len() == 0 {
                assert(s@.subrange(i as int, i as int) =~= p@);
            }
        }
        i = i + 1;
    }
    None
}

/// `str::contains`.
pub fn contains_exec(s: &[char], p: &[char]) -> (r: bool)
    ensures
        r == contains(s@, p@),
{
    proof {
        lemma_contains_find(s@, p@);
    }
    find_exec(s, p).is_some()
}

/// `str::contains` with a string pattern.
pub fn contains_str(s: &[char], p: &str) -> (r: bool)
    ensures
        r == contains(s@, p@),
{
    let pc = chars_of(p);
    contains_exec(s, pc.as_slice())
}

/// `str::starts_with` with a string pattern.
pub fn starts_with_str(s: &[char], p: &str) -> (r: bool)
    ensures
        r == starts_with(s@, p@),
{
    let pc = chars_of(p);
    occurs_at_exec(s, pc.as_slice(), 0)
}

/// `str::split_once` with a string pattern.
pub fn split_once_str(s: &[char], p: &str) -> (r: Option<(Vec<char>, Vec<char>)>)
    ensures
        match r {
            Some((a, b)) => split_once(s@, p@) == Some((a@, b@)),
            None => split_once(s@, p@) is None,
        },
{
    let pc = chars_of(p);
    proof {
        lemma_find_from_range(s@, p@, 0);
    }
    match find_exec(s, pc.as_slice()) {
        Some(i) => {
            assert(occurs_at(s@, p@, i as int));
            let n = s.len();
            let m = pc.len();
            assert(i + m <= n);
            let a = slice_chars(s, 0, i);
            let b = slice_chars(s, i + m, n);
            proof {
                assert(a@ =~= s@.take(i as int));
                assert(b@ =~= s@.skip(i + p@.len()));
            }
            Some((a, b))
        },
        None => None,
    }
}

/// `str::rsplit_once` with a character pattern.
pub fn rsplit_once_char_exec(s: &[char], c: char) -> (r: Option<(Vec<char>, Vec<char>)>)
    ensures
        match r {
            Some((a, b)) => rsplit_once_char(s@, c) == Some((a@, b@)),
            None => rsplit_once_char(s@, c) is None,
        },
{
    let mut n: usize = s.len();
    while n > 0 && s[n - 1] != c
        invariant
            n <= s@.len(),
            rfind_char_before(s@, c, s@.len() as int) == rfind_char_before(s@, c, n as int),
        decreases n,
    {
        n = n - 1;
    }
    if n == 0 {
        None
    } else {
        let a = slice_chars(s, 0, n - 1);
        let b = slice_chars(s, n, s.len());
        proof {
            assert(a@ =~= s@.take(n - 1));
            assert(b@ =~= s@.skip(n as int));
        }
        Some((a, b))
    }
}

/// `str::split(sep)`.
pub fn split_exec(s: &[char], sep: char) -> (r: Vec<Vec<char>>)
    ensures
        r@.map_values(|p: Vec<char>| p@) == split(s@, sep),
{
    let mut pieces: Vec<Vec<char>> = Vec::new();
    let mut cur: Vec<char> = Vec::new();
    let mut i: usize = 0;
    while i < s.len()
        invariant
            i <= s@.len(),
            pieces@.map_values(|p: Vec<char>| p@).push(cur@) == split(s@.take(i as int), sep),
        decreases s@.len() - i,
    {
        let ghost prev = pieces@.map_values(|p: Vec<char>| p@).push(cur@);
        proof {
            assert(s@.take(i + 1).drop_last() =~= s@.take(i as int));
            lemma_split_len(s@.take(i as int), sep);
        }
        if s[i] == sep {
            pieces.push(cur);
            cur = Vec::new();
            proof {
                assert(pieces@.map_values(|p: Vec<char>| p@).push(cur@) =~= prev.push(Seq::<char>::empty()));
            }
        } else {
            cur.push(s[i]);
            proof {
                assert(pieces@.map_values(|p: Vec<char>| p@).push(cur@) =~= prev.update(prev.len() - 1, prev.last().push(s@[i as int])));
            }
        }
        i = i + 1;
    }
    proof {
        assert(s@.take(s@.len() as int) =~= s@);
    }
    pieces.push(cur);
    proof {
        assert(pieces@.map_values(|p: Vec<char>| p@) =~= split(s@, sep));
    }
    pieces
}

/// `str::lines`.
pub fn lines_exec(s: &[char]) -> (r: Vec<Vec<char>>)
    ensures
        r@.map_values(|p: Vec<char>| p@) == lines(s@),
{
    let pieces = split_exec(s, '\n');
    let ghost p = split(s@, '\n');
    proof {
        lemma_split_len(s@, '\n');
        assert(pieces@.len() == p.len());
    }
    let n = pieces.len();
    let count = if pieces[n - 1].len() == 0 { n - 1 } else { n };
    proof {
        assert(pieces@[n - 1]@ == p.last());
    }
    let mut out: Vec<Vec<char>> = Vec::new();
    let mut i: usize = 0;
    while i < count
        invariant
            n == p.len(),
            n >= 1,
            count <= n,
            count as int == (if p.last().len() == 0 { p.len() - 1 } else { p.len() as int }),
            pieces@.map_values(|q: Vec<char>| q@) == p,
            i <= count,
            out@.len() == i,
            forall|j: int| 0 <= j < i ==> (#[trigger] out@[j])@ == (if j < p.len() - 1 { strip_cr(p[j]) } else { p[j] }),
        decreases count - i,
    {
        let piece = &pieces[i];
        assert(piece@ == p[i as int]);
        let k = piece.len();
        if i + 1 < n && k > 0 && piece[k - 1] == '\r' {
            out.push(slice_chars(piece.as_slice(), 0, k - 1));
            proof {
                assert(piece@.subrange(0, k - 1) =~= piece@.drop_last());
            }
        } else {
            out.push(slice_chars(piece.as_slice(), 0, k));
            proof {
                assert(piece@.subrange(0, k as int) =~= piece@);
            }
        }
        i = i + 1;
    }
    proof {
        assert(out@.map_values(|q: Vec<char>| q@) =~= lines(s@));
    }
    out
}

/// `str::lines` on a string slice.
pub fn lines_str(s: &str) -> (r: Vec<Vec<char>>)
    ensures
        r@.map_values(|p: Vec<char>| p@) == lines(s@),
{
    let cs = chars_of(s);
    lines_exec(cs.as_slice())
}

proof fn lemma_filter_push_nonempty(r: Seq<Seq<char>>, x: Seq<char>)
    ensures
        r.push(x).filter(|p: Seq<char>| p.len() > 0) == if x.len() > 0 {
            r.filter(|p: Seq<char>| p.len() > 0).push(x)
        } else {
            r.filter(|p: Seq<char>| p.len() > 0)
        },
{
    reveal(Seq::filter);
    assert(r.push(x).drop_last() =~= r);
}

/// `str::split_whitespace`.
pub fn split_whitespace_exec(s: &[char]) -> (r: Vec<Vec<char>>)
    ensures
        r@.map_values(|p: Vec<char>| p@) == split_whitespace(s@),
{
    let mut done: Vec<Vec<char>> = Vec::new();
    let ghost mut closed: Seq<Seq<char>> = Seq::empty();
    let mut cur: Vec<char> = Vec::new();
    let mut i: usize = 0;
    while i < s.len()
        invariant
            i <= s@.len(),
            closed.push(cur@) == split_ws_all(s@.take(i as int)),
            done@.map_values(|p: Vec<char>| p@) == closed.filter(|p: Seq<char>| p.len() > 0),
        decreases s@.len() - i,
    {
        proof {
            assert(s@.take(i + 1).drop_last() =~= s@.take(i as int));
            lemma_split_ws_all_len(s@.take(i as int));
        }
        let ghost prev = closed.push(cur@);
        if is_ws_char(s[i]) {
            proof {
                lemma_filter_push_nonempty(closed, cur@);
                closed = closed.push(cur@);
            }
            if cur.len() > 0 {
                done.push(cur);
                proof {
                    assert(done@.map_values(|p: Vec<char>| p@) =~= closed.filter(|p: Seq<char>| p.len() > 0));
                }
            }
            cur = Vec::new();
            proof {
                assert(closed.push(cur@) =~= prev.push(Seq::<char>::empty()));
            }
        } else {
            cur.push(s[i]);
            proof {
                assert(closed.push(cur@) =~= prev.update(prev.len() - 1, prev.last().push(s@[i as int])));
            }
        }
        i = i + 1;
    }
    proof {
        assert(s@.take(s@.len() as int) =~= s@);
        lemma_filter_push_nonempty(closed, cur@);
    }
    if cur.len() > 0 {
        done.push(cur);
        proof {
            assert(done@.map_values(|p: Vec<char>| p@) =~= split_whitespace(s@));
        }
    }
    done
}

/// `[String]::join(sep)`.
pub fn join_strings(parts: &Vec<String>, sep: &str) -> (r: String)
    ensures
        r@ == join(views(parts@), sep@),
{
    let mut r = String::new();
    let mut i: usize = 0;
    while i < parts.len()
        invariant
            i <= parts@.len(),
            r@ == join(views(parts@.take(i as int)), sep@),
        decreases parts@.len() - i,
    {
        proof {
            assert(views(parts@.take(i + 1)).drop_last() =~= views(parts@.take(i as int)));
            assert(views(parts@.take(i + 1)).last() == parts@[i as int]@);
        }
        if i > 0 {
            push_str(&mut r, sep);
        }
        push_str(&mut r, parts[i].as_str());
        proof {
            if i == 0 {
                assert(views(parts@.take(0)).len() == 0);
                assert(r@ =~= join(views(parts@.take(1)), sep@));
            }
        }
        i = i + 1;
    }
    proof {
        assert(parts@.take(parts@.len() as int) =~= parts@);
    }
    r
}

/// The trimmed, non-empty pieces of `parts`, in order.
pub open spec fn trimmed_nonempty(parts: Seq<Seq<char>>) -> Seq<Seq<char>>
    decreases parts.len(),
{
    if parts.len() == 0 {
        Seq::<Seq<char>>::empty()
    } else {
        trimmed_nonempty(parts.drop_last()) + if trim(parts.last()).len() > 0 {
            seq![trim(parts.last())]
        } else {
            Seq::<Seq<char>>::empty()
        }
    }
}

/// The trimmed, non-empty pieces of `s` between occurrences of `sep`.
pub fn trimmed_pieces(s: &[char], sep: char) -> (r: Vec<Vec<char>>)
    ensures
        r@.map_values(|p: Vec<char>| p@) == trimmed_nonempty(split(s@, sep)),
{
    let parts = split_exec(s, sep);
    let ghost ps = split(s@, sep);
    let mut r: Vec<Vec<char>> = Vec::new();
    let mut i: usize = 0;
    while i < parts.len()
        invariant
            parts@.map_values(|p: Vec<char>| p@) == ps,
            i <= parts@.len(),
            r@.map_values(|p: Vec<char>| p@) == trimmed_nonempty(ps.take(i as int)),
        decreases parts@.len() - i,
    {
        proof {
            assert(ps.take(i + 1).drop_last() =~= ps.take(i as int));
            assert(parts@[i as int]@ == ps[i as int]);
        }
        let t = trim_chars(parts[i].as_slice());
        let ghost old_r = r@.map_values(|p: Vec<char>| p@);
        if t.len() > 0 {
            r.push(t);
        }
        proof {
            assert(r@.map_values(|p: Vec<char>| p@) =~= trimmed_nonempty(ps.take(i + 1)));
        }
        i = i + 1;
    }
    proof {
        assert(ps.take(parts@.len() as int) =~= ps);
    }
    r
}

/// `str::replace(from, to)` for a non-empty pattern: every non-overlapping
/// occurrence of `from`, scanning left to right, becomes `to`.
pub open spec fn replace_all(s: Seq<char>, from: Seq<char>, to: Seq<char>) -> Seq<char>
    decreases s.len(),
{
    if from.len() == 0 {
        s
    } else {
        let i = find(s, from);
        if i < 0 {
            s
        } else {
            proof {
                lemma_find_in_range(s, from);
            }
            s.take(i) + to + replace_all(s.skip(i + from.len()), from, to)
        }
    }
}

/// `str::replace` with a non-empty string pattern.
pub fn replace_str(s: &str, from: &str, to: &str) -> (r: String)
    requires
        from@.len() > 0,
    ensures
        r@ == replace_all(s@, from@, to@),
{
    let fc = chars_of(from);
    let tc = chars_of(to);
    let mut rest = chars_of(s);
    let mut out = String::new();
    loop
        invariant
            fc@ == from@,
            tc@ == to@,
            fc@.len() > 0,
            out@ + replace_all(rest@, from@, to@) == replace_all(s@, from@, to@),
        decreases rest@.len(),
    {
        proof {
            lemma_find_in_range(rest@, fc@);
        }
        match find_exec(rest.as_slice(), fc.as_slice()) {
            Some(i) => {
                let n = rest.len();
                let m = fc.len();
                assert(occurs_at(rest@, fc@, i as int));
                assert(i + m <= n);
                let head = slice_chars(rest.as_slice(), 0, i);
                let tail = slice_chars(rest.as_slice(), i + m, n);
                proof {
                    assert(head@ =~= rest@.take(i as int));
                    assert(tail@ =~= rest@.skip(i + m));
                    assert(replace_all(rest@, from@, to@) == rest@.take(i as int) + to@ + replace_all(tail@, from@, to@));
                }
                let ghost before = out@;
                push_chars(&mut out, head.as_slice());
                push_chars(&mut out, tc.as_slice());
                proof {
                    assert(out@ + replace_all(tail@, from@, to@) =~= before + replace_all(rest@, from@, to@));
                }
                rest = tail;
            },
            None => {
                push_chars(&mut out, rest.as_slice());
                return out;
            },
        }
    }
}

} // verus!
