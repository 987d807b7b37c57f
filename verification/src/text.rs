//! Character-sequence primitives used by the installer's parsers and builders.
use vstd::prelude::*;
use vstd::std_specs::iter::IteratorSpec;

verus! {

/// Appends one character to a `String` (std's `String::push`).
/// Trusted: the new contents are the old ones followed by `c`.
#[verifier::external_body]
pub(crate) fn push_char(s: &mut String, c: char)
    ensures
        final(s)@ == old(s)@.push(c),
{
    s.push(c);
}

/// The characters of `s`, in order.
pub fn chars_of(s: &str) -> (v: Vec<char>)
    ensures
        v@ == s@,
{
    let mut v: Vec<char> = Vec::new();
    for c in it: s.chars()
        invariant
            v@ == it.seq().take(it.index() as int),
            it.seq() == s@,
    {
        v.push(c);
    }
    v
}

/// Builds a `String` holding exactly the given characters.
pub fn string_of(v: &[char]) -> (s: String)
    ensures
        s@ == v@,
{
    let mut s = String::new();
    let mut i: usize = 0;
    while i < v.len()
        invariant
            i <= v.len(),
            s@ == v@.take(i as int),
        decreases v.len() - i,
    {
        push_char(&mut s, v[i]);
        i = i + 1;
        assert(v@.take(i as int) == v@.take((i - 1) as int).push(v@[i - 1]));
    }
    assert(v@.take(v.len() as int) == v@);
    s
}


/// A copy of `s[lo..hi]`.
pub fn copy_range(s: &Vec<char>, lo: usize, hi: usize) -> (r: Vec<char>)
    requires
        lo <= hi <= s.len(),
    ensures
        r@ == s@.subrange(lo as int, hi as int),
{
    let mut r: Vec<char> = Vec::new();
    let mut i: usize = lo;
    while i < hi
        invariant
            lo <= i <= hi <= s.len(),
            r@ == s@.subrange(lo as int, i as int),
        decreases hi - i,
    {
        r.push(s[i]);
        i = i + 1;
        assert(r@ =~= s@.subrange(lo as int, i as int));
    }
    r
}

// ---------------------------------------------------------------------------
// Searching for a single character

/// Index of the first `c` in `s`, or `s.len()` when `c` does not occur.
pub open spec fn index_of(s: Seq<char>, c: char) -> int
    decreases s.len(),
{
    if s.len() == 0 {
        0
    } else if s[0] == c {
        0
    } else {
        1 + index_of(s.skip(1), c)
    }
}

pub proof fn lemma_index_of(s: Seq<char>, c: char)
    ensures
        0 <= index_of(s, c) <= s.len(),
        forall|k: int| 0 <= k < index_of(s, c) ==> s[k] != c,
        index_of(s, c) < s.len() ==> s[index_of(s, c)] == c,
    decreases s.len(),
{
    if s.len() > 0 && s[0] != c {
        lemma_index_of(s.skip(1), c);
        assert forall|k: int| 0 <= k < index_of(s, c) implies s[k] != c by {
            if k > 0 {
                assert(s[k] == s.skip(1)[k - 1]);
            }
        }
    }
}

/// `index_of` is the only position before which `c` is absent and at which it stands (or the end).
pub proof fn lemma_index_of_unique(s: Seq<char>, c: char, i: int)
    requires
        0 <= i <= s.len(),
        forall|k: int| 0 <= k < i ==> s[k] != c,
        i == s.len() || s[i] == c,
    ensures
        index_of(s, c) == i,
{
    lemma_index_of(s, c);
}

// ---------------------------------------------------------------------------
// Lines, as `str::lines` yields them

/// Drops one trailing carriage return.
pub open spec fn strip_cr(l: Seq<char>) -> Seq<char> {
    if l.len() > 0 && l.last() == '\r' {
        l.drop_last()
    } else {
        l
    }
}

/// The lines of `s`: split at each `\n`, a `\r` right before the `\n` removed, and no
/// empty last line after a final `\n`.
pub open spec fn lines_of(s: Seq<char>) -> Seq<Seq<char>>
    decreases s.len(),
{
    if s.len() == 0 {
        seq![]
    } else {
        let i = index_of(s, '\n');
        if i >= s.len() {
            seq![s]
        } else {
            proof {
                lemma_index_of(s, '\n');
            }
            seq![strip_cr(s.take(i))] + lines_of(s.skip(i + 1))
        }
    }
}

/// The pieces of `s` between occurrences of `c`, as `str::split` yields them.
pub open spec fn split_on(s: Seq<char>, c: char) -> Seq<Seq<char>>
    decreases s.len(),
{
    let i = index_of(s, c);
    if i >= s.len() {
        seq![s]
    } else {
        proof {
            lemma_index_of(s, c);
        }
        seq![s.take(i)] + split_on(s.skip(i + 1), c)
    }
}

/// Splitting a piece that holds no separator and that is followed by one.
proof fn lemma_piece(s: Seq<char>, c: char, start: int, i: int)
    requires
        0 <= start <= i < s.len(),
        forall|k: int| start <= k < i ==> s[k] != c,
        s[i] == c,
    ensures
        index_of(s.subrange(start, s.len() as int), c) == i - start,
        s.subrange(start, s.len() as int).take(i - start) == s.subrange(start, i),
        s.subrange(start, s.len() as int).skip(i - start + 1) == s.subrange(i + 1, s.len() as int),
{
    let t = s.subrange(start, s.len() as int);
    lemma_index_of_unique(t, c, i - start);
    assert(t.take(i - start) =~= s.subrange(start, i));
    assert(t.skip(i - start + 1) =~= s.subrange(i + 1, s.len() as int));
}

/// The lines of `s`, one vector of characters each.
pub fn split_lines(s: &Vec<char>) -> (r: Vec<Vec<char>>)
    ensures
        r.deep_view() == lines_of(s@),
{
    let mut r: Vec<Vec<char>> = Vec::new();
    let mut start: usize = 0;
    let mut i: usize = 0;
    let len = s.len();
    assert(s@.subrange(0, len as int) == s@);
    while i < len
        invariant
            len == s.len(),
            start <= i <= len,
            forall|k: int| start <= k < i ==> s@[k] != '\n',
            r.deep_view() + lines_of(s@.subrange(start as int, len as int)) == lines_of(s@),
        decreases len - i,
    {
        if s[i] == '\n' {
            let mut end = i;
            if end > start && s[end - 1] == '\r' {
                end = end - 1;
            }
            let line = copy_range(s, start, end);
            proof {
                lemma_piece(s@, '\n', start as int, i as int);
                let t = s@.subrange(start as int, len as int);
                assert(strip_cr(s@.subrange(start as int, i as int)) =~= line@);
                assert(lines_of(t) == seq![line@] + lines_of(s@.subrange(i + 1, len as int)));
            }
            let ghost before = r.deep_view();
            r.push(line);
            assert(r.deep_view() =~~= before.push(line@));
            start = i + 1;
        }
        i = i + 1;
    }
    let ghost t = s@.subrange(start as int, len as int);
    if start < len {
        let last = copy_range(s, start, len);
        proof {
            lemma_index_of_unique(t, '\n', t.len() as int);
        }
        let ghost before = r.deep_view();
        r.push(last);
        assert(r.deep_view() =~~= before.push(last@));
    } else {
        assert(t.len() == 0);
    }
    r
}

/// The pieces of `s` between occurrences of `c`.
pub fn split_char(s: &Vec<char>, c: char) -> (r: Vec<Vec<char>>)
    ensures
        r.deep_view() == split_on(s@, c),
{
    let mut r: Vec<Vec<char>> = Vec::new();
    let mut start: usize = 0;
    let mut i: usize = 0;
    let len = s.len();
    assert(s@.subrange(0, len as int) == s@);
    while i < len
        invariant
            len == s.len(),
            start <= i <= len,
            forall|k: int| start <= k < i ==> s@[k] != c,
            r.deep_view() + split_on(s@.subrange(start as int, len as int), c) == split_on(s@, c),
        decreases len - i,
    {
        if s[i] == c {
            let piece = copy_range(s, start, i);
            proof {
                lemma_piece(s@, c, start as int, i as int);
            }
            let ghost before = r.deep_view();
            r.push(piece);
            assert(r.deep_view() =~~= before.push(piece@));
            start = i + 1;
        }
        i = i + 1;
    }
    let last = copy_range(s, start, len);
    proof {
        let t = s@.subrange(start as int, len as int);
        lemma_index_of_unique(t, c, t.len() as int);
    }
    let ghost before = r.deep_view();
    r.push(last);
    assert(r.deep_view() =~~= before.push(last@));
    r
}

// ---------------------------------------------------------------------------
// Whitespace, as `char::is_whitespace` (the Unicode White_Space property) has it

pub open spec fn is_whitespace(c: char) -> bool {
    let n = c as u32;
    (0x09 <= n <= 0x0d) || n == 0x20 || n == 0x85 || n == 0xa0 || n == 0x1680 || (0x2000 <= n
        <= 0x200a) || n == 0x2028 || n == 0x2029 || n == 0x202f || n == 0x205f || n == 0x3000
}

pub fn char_is_whitespace(c: char) -> (b: bool)
    ensures
        b == is_whitespace(c),
{
    let n = c as u32;
    (0x09 <= n && n <= 0x0d) || n == 0x20 || n == 0x85 || n == 0xa0 || n == 0x1680 || (0x2000
        <= n && n <= 0x200a) || n == 0x2028 || n == 0x2029 || n == 0x202f || n == 0x205f || n
        == 0x3000
}

/// `s` without its leading whitespace (`str::trim_start`).
pub open spec fn trim_start(s: Seq<char>) -> Seq<char>
    decreases s.len(),
{
    if s.len() > 0 && is_whitespace(s[0]) {
        trim_start(s.skip(1))
    } else {
        s
    }
}

/// `s` without its trailing whitespace (`str::trim_end`).
pub open spec fn trim_end(s: Seq<char>) -> Seq<char>
    decreases s.len(),
{
    if s.len() > 0 && is_whitespace(s.last()) {
        trim_end(s.drop_last())
    } else {
        s
    }
}

/// `s` without leading and trailing whitespace (`str::trim`).
pub open spec fn trim(s: Seq<char>) -> Seq<char> {
    trim_end(trim_start(s))
}

/// Bounds of `s[lo..hi]` with its leading whitespace removed.
pub fn trim_start_from(s: &Vec<char>, lo: usize, hi: usize) -> (a: usize)
    requires
        lo <= hi <= s.len(),
    ensures
        lo <= a <= hi,
        s@.subrange(a as int, hi as int) == trim_start(s@.subrange(lo as int, hi as int)),
{
    let mut a = lo;
    while a < hi && char_is_whitespace(s[a])
        invariant
            lo <= a <= hi <= s.len(),
            trim_start(s@.subrange(a as int, hi as int)) == trim_start(
                s@.subrange(lo as int, hi as int),
            ),
        decreases hi - a,
    {
        assert(s@.subrange(a as int, hi as int).skip(1) =~= s@.subrange(a + 1, hi as int));
        a = a + 1;
    }
    a
}

/// Bounds of `s[lo..hi]` with its trailing whitespace removed.
pub fn trim_end_to(s: &Vec<char>, lo: usize, hi: usize) -> (b: usize)
    requires
        lo <= hi <= s.len(),
    ensures
        lo <= b <= hi,
        s@.subrange(lo as int, b as int) == trim_end(s@.subrange(lo as int, hi as int)),
{
    let mut b = hi;
    while b > lo && char_is_whitespace(s[b - 1])
        invariant
            lo <= b <= hi <= s.len(),
            trim_end(s@.subrange(lo as int, b as int)) == trim_end(
                s@.subrange(lo as int, hi as int),
            ),
        decreases b - lo,
    {
        assert(s@.subrange(lo as int, b as int).drop_last() =~= s@.subrange(lo as int, b - 1));
        b = b - 1;
    }
    b
}

/// Bounds of `s[lo..hi]` trimmed at both ends.
pub fn trim_range(s: &Vec<char>, lo: usize, hi: usize) -> (ab: (usize, usize))
    requires
        lo <= hi <= s.len(),
    ensures
        lo <= ab.0 <= ab.1 <= hi,
        s@.subrange(ab.0 as int, ab.1 as int) == trim(s@.subrange(lo as int, hi as int)),
{
    let a = trim_start_from(s, lo, hi);
    let b = trim_end_to(s, a, hi);
    (a, b)
}

/// A trimmed copy of `s`.
pub fn trimmed(s: &Vec<char>) -> (r: Vec<char>)
    ensures
        r@ == trim(s@),
{
    let (a, b) = trim_range(s, 0, s.len());
    assert(s@.subrange(0, s@.len() as int) =~= s@);
    copy_range(s, a, b)
}

// ---------------------------------------------------------------------------
// Whitespace-separated words, as `str::split_whitespace` yields them

/// Index of the first whitespace character of `s`, or `s.len()`.
pub open spec fn first_ws(s: Seq<char>) -> int
    decreases s.len(),
{
    if s.len() == 0 {
        0
    } else if is_whitespace(s[0]) {
        0
    } else {
        1 + first_ws(s.skip(1))
    }
}

pub proof fn lemma_first_ws(s: Seq<char>)
    ensures
        0 <= first_ws(s) <= s.len(),
        forall|k: int| 0 <= k < first_ws(s) ==> !is_whitespace(s[k]),
        first_ws(s) < s.len() ==> is_whitespace(s[first_ws(s)]),
    decreases s.len(),
{
    if s.len() > 0 && !is_whitespace(s[0]) {
        lemma_first_ws(s.skip(1));
        assert forall|k: int| 0 <= k < first_ws(s) implies !is_whitespace(s[k]) by {
            if k > 0 {
                assert(s[k] == s.skip(1)[k - 1]);
            }
        }
    }
}

pub proof fn lemma_trim_start(s: Seq<char>)
    ensures
        trim_start(s).len() <= s.len(),
        trim_start(s).len() > 0 ==> !is_whitespace(trim_start(s)[0]),
        trim_start(s) == s.skip(s.len() - trim_start(s).len()),
    decreases s.len(),
{
    if s.len() > 0 && is_whitespace(s[0]) {
        lemma_trim_start(s.skip(1));
        assert(s.skip(1).skip(s.skip(1).len() - trim_start(s).len()) =~= s.skip(
            s.len() - trim_start(s).len(),
        ));
    } else {
        assert(s.skip(0) =~= s);
    }
}

/// The whitespace-separated words of `s`.
pub open spec fn words(s: Seq<char>) -> Seq<Seq<char>>
    decreases s.len(),
{
    let t = trim_start(s);
    if t.len() == 0 {
        seq![]
    } else {
        proof {
            lemma_trim_start(s);
            lemma_first_ws(t);
        }
        let j = first_ws(t);
        seq![t.take(j)] + words(t.skip(j))
    }
}

/// The whitespace-separated words of `s`.
pub fn split_words(s: &Vec<char>) -> (r: Vec<Vec<char>>)
    ensures
        r.deep_view() == words(s@),
{
    let mut r: Vec<Vec<char>> = Vec::new();
    let len = s.len();
    let mut i: usize = 0;
    assert(s@.subrange(0, len as int) == s@);
    while i < len
        invariant
            len == s.len(),
            i <= len,
            r.deep_view() + words(s@.subrange(i as int, len as int)) == words(s@),
        decreases len - i,
    {
        let a = trim_start_from(s, i, len);
        if a == len {
            assert(words(s@.subrange(i as int, len as int)) == Seq::<Seq<char>>::empty());
            i = len;
        } else {
            let mut j = a;
            while j < len && !char_is_whitespace(s[j])
                invariant
                    a <= j <= len == s.len(),
                    forall|k: int| a <= k < j ==> !is_whitespace(s@[k]),
                decreases len - j,
            {
                j = j + 1;
            }
            let w = copy_range(s, a, j);
            proof {
                let t = s@.subrange(a as int, len as int);
                assert(t == trim_start(s@.subrange(i as int, len as int)));
                assert forall|k: int| 0 <= k < j - a implies !is_whitespace(t[k]) by {
                    assert(t[k] == s@[a + k]);
                }
                lemma_first_ws(t);
                if first_ws(t) < j - a {
                    assert(!is_whitespace(t[first_ws(t)]));
                }
                if first_ws(t) > j - a {
                    assert(t[j - a] == s@[j as int]);
                }
                assert(first_ws(t) == j - a);
                assert(t.take(j - a) =~= w@);
                assert(t.skip(j - a) =~= s@.subrange(j as int, len as int));
            }
            let ghost before = r.deep_view();
            r.push(w);
            assert(r.deep_view() =~~= before.push(w@));
            i = j;
        }
    }
    r
}

// ---------------------------------------------------------------------------
// Substring search

/// `p` occurs in `s` starting at index `i`.
pub open spec fn occurs_at(s: Seq<char>, p: Seq<char>, i: int) -> bool {
    0 <= i && i + p.len() <= s.len() && s.subrange(i, i + p.len()) =~= p
}

/// `p` occurs somewhere in `s` (`str::contains`).
pub open spec fn contains(s: Seq<char>, p: Seq<char>) -> bool {
    exists|i: int| occurs_at(s, p, i)
}

/// `s` begins with `p` (`str::starts_with`).
pub open spec fn starts_with(s: Seq<char>, p: Seq<char>) -> bool {
    occurs_at(s, p, 0)
}

/// `s` ends with `p` (`str::ends_with`).
pub open spec fn ends_with(s: Seq<char>, p: Seq<char>) -> bool {
    occurs_at(s, p, s.len() - p.len())
}

/// The first index at or after `k` where `p` occurs in `s` (`str::find` from `k`).
pub open spec fn first_from(s: Seq<char>, p: Seq<char>, k: int) -> Option<int>
    decreases s.len() - k,
{
    if k < 0 || k + p.len() > s.len() {
        None
    } else if occurs_at(s, p, k) {
        Some(k)
    } else {
        first_from(s, p, k + 1)
    }
}

pub proof fn lemma_first_from(s: Seq<char>, p: Seq<char>, k: int)
    requires
        k >= 0,
    ensures
        match first_from(s, p, k) {
            Some(i) => k <= i && occurs_at(s, p, i) && forall|j: int|
                k <= j < i ==> !occurs_at(s, p, j),
            None => forall|j: int| k <= j ==> !occurs_at(s, p, j),
        },
    decreases s.len() - k,
{
    if k + p.len() <= s.len() && !occurs_at(s, p, k) {
        lemma_first_from(s, p, k + 1);
    }
}

/// Does `p` occur in `s` at `i`?
pub fn matches_at(s: &Vec<char>, p: &Vec<char>, i: usize) -> (b: bool)
    ensures
        b == occurs_at(s@, p@, i as int),
{
    if i > s.len() || p.len() > s.len() - i {
        return false;
    }
    let mut k: usize = 0;
    while k < p.len()
        invariant
            i + p.len() <= s.len(),
            k <= p.len(),
            forall|m: int| 0 <= m < k ==> s@[i + m] == p@[m],
        decreases p.len() - k,
    {
        if s[i + k] != p[k] {
            assert(s@.subrange(i as int, i + p.len())[k as int] != p@[k as int]);
            return false;
        }
        k = k + 1;
    }
    assert(s@.subrange(i as int, i + p.len()) =~= p@);
    true
}

/// The first index at or after `k` where `p` occurs in `s`.
pub fn find_from(s: &Vec<char>, p: &Vec<char>, k: usize) -> (r: Option<usize>)
    ensures
        match r {
            Some(i) => first_from(s@, p@, k as int) == Some(i as int),
            None => first_from(s@, p@, k as int) is None,
        },
{
    let mut i = k;
    while i <= s.len() && p.len() <= s.len() - i
        invariant
            k <= i,
            first_from(s@, p@, k as int) == first_from(s@, p@, i as int),
        decreases s.len() + 1 - i,
    {
        if matches_at(s, p, i) {
            return Some(i);
        }
        i = i + 1;
    }
    None
}

/// Does `p` occur anywhere in `s`?
pub fn contains_chars(s: &Vec<char>, p: &Vec<char>) -> (b: bool)
    ensures
        b == contains(s@, p@),
{
    let r = find_from(s, p, 0);
    proof {
        lemma_first_from(s@, p@, 0);
    }
    r.is_some()
}

/// Does `s` begin with `p`?
pub fn starts_with_chars(s: &Vec<char>, p: &Vec<char>) -> (b: bool)
    ensures
        b == starts_with(s@, p@),
{
    matches_at(s, p, 0)
}

// ---------------------------------------------------------------------------
// Replacement, as `str::replace` does it: matches taken left to right, without overlap

pub open spec fn replace_all(s: Seq<char>, p: Seq<char>, r: Seq<char>) -> Seq<char>
    decreases s.len(),
{
    if s.len() == 0 || p.len() == 0 {
        s
    } else if occurs_at(s, p, 0) {
        r + replace_all(s.skip(p.len() as int), p, r)
    } else {
        seq![s[0]] + replace_all(s.skip(1), p, r)
    }
}

/// Every non-overlapping occurrence of `p` in `s`, from the left, replaced by `r`.
pub fn replace_chars(s: &Vec<char>, p: &Vec<char>, r: &Vec<char>) -> (out: Vec<char>)
    requires
        p.len() > 0,
    ensures
        out@ == replace_all(s@, p@, r@),
{
    let mut out: Vec<char> = Vec::new();
    let len = s.len();
    let mut i: usize = 0;
    assert(s@.subrange(0, len as int) =~= s@);
    while i < len
        invariant
            len == s.len(),
            p.len() > 0,
            i <= len,
            out@ + replace_all(s@.subrange(i as int, len as int), p@, r@) == replace_all(
                s@,
                p@,
                r@,
            ),
        decreases len - i,
    {
        let ghost t = s@.subrange(i as int, len as int);
        if matches_at(s, p, i) {
            proof {
                assert(t.subrange(0, p@.len() as int) =~= s@.subrange(i as int, i + p@.len()));
                assert(t.skip(p@.len() as int) =~= s@.subrange(i + p@.len(), len as int));
            }
            let mut k: usize = 0;
            let ghost out0 = out@;
            while k < r.len()
                invariant
                    k <= r.len(),
                    out@ == out0 + r@.take(k as int),
                decreases r.len() - k,
            {
                out.push(r[k]);
                k = k + 1;
                assert(out@ =~= out0 + r@.take(k as int));
            }
            assert(r@.take(r@.len() as int) =~= r@);
            assert(out0 + replace_all(t, p@, r@) =~= out@ + replace_all(
                s@.subrange(i + p@.len(), len as int),
                p@,
                r@,
            ));
            i = i + p.len();
        } else {
            proof {
                if occurs_at(t, p@, 0) {
                    assert(t.subrange(0, p@.len() as int) =~= s@.subrange(i as int, i + p@.len()));
                }
                assert(t.skip(1) =~= s@.subrange(i + 1, len as int));
            }
            let ghost out0 = out@;
            out.push(s[i]);
            assert(out0 + replace_all(t, p@, r@) =~= out@ + replace_all(
                s@.subrange(i + 1, len as int),
                p@,
                r@,
            ));
            i = i + 1;
        }
    }
    assert(out@ + replace_all(s@.subrange(len as int, len as int), p@, r@) =~= out@);
    out
}

/// The index of the first `c` in `s` at or after `k`, or `s.len()`.
pub fn find_char_from(s: &Vec<char>, c: char, k: usize) -> (r: usize)
    requires
        k <= s.len(),
    ensures
        r == k + index_of(s@.subrange(k as int, s.len() as int), c),
        k <= r <= s.len(),
{
    let mut i = k;
    while i < s.len() && s[i] != c
        invariant
            k <= i <= s.len(),
            forall|m: int| k <= m < i ==> s@[m] != c,
        decreases s.len() - i,
    {
        i = i + 1;
    }
    proof {
        let t = s@.subrange(k as int, s.len() as int);
        assert forall|m: int| 0 <= m < i - k implies t[m] != c by {
            assert(t[m] == s@[k + m]);
        }
        lemma_index_of_unique(t, c, i - k);
    }
    i
}

/// A copy of `v` with the characters of `s` appended.
pub fn append_str(v: &mut Vec<char>, s: &str)
    ensures
        final(v)@ == old(v)@ + s@,
{
    let cs = chars_of(s);
    let mut k: usize = 0;
    while k < cs.len()
        invariant
            k <= cs.len(),
            cs@ == s@,
            v@ == old(v)@ + cs@.take(k as int),
        decreases cs.len() - k,
    {
        v.push(cs[k]);
        k = k + 1;
        assert(v@ =~= old(v)@ + cs@.take(k as int));
    }
    assert(cs@.take(cs@.len() as int) =~= cs@);
}

/// Appends the characters of `src` to `v`.
pub fn append_chars(v: &mut Vec<char>, src: &Vec<char>)
    ensures
        final(v)@ == old(v)@ + src@,
{
    let mut k: usize = 0;
    while k < src.len()
        invariant
            k <= src.len(),
            v@ == old(v)@ + src@.take(k as int),
        decreases src.len() - k,
    {
        v.push(src[k]);
        k = k + 1;
        assert(v@ =~= old(v)@ + src@.take(k as int));
    }
    assert(src@.take(src@.len() as int) =~= src@);
}

// ---------------------------------------------------------------------------
// Case

/// What `str::to_lowercase` returns for `s` (Unicode lowercase mapping).
pub uninterp spec fn lowercase(s: Seq<char>) -> Seq<char>;

/// std's `str::to_lowercase`. Trusted: the result is `lowercase` of the argument, a
/// function of the text alone (std's mapping does not depend on a locale).
#[verifier::external_body]
pub(crate) fn to_lowercase(s: &str) -> (r: String)
    ensures
        r@ == lowercase(s@),
{
    s.to_lowercase()
}

/// `c` with ASCII upper case letters mapped to lower case.
pub open spec fn ascii_lower(c: char) -> char {
    if 'A' as u32 <= c as u32 <= 'Z' as u32 {
        ((c as u32) + 32) as char
    } else {
        c
    }
}

/// `a` and `b` are equal when ASCII letters are compared without case
/// (`str::eq_ignore_ascii_case`; since UTF-8 never uses ASCII bytes inside a multi-byte
/// character, comparing bytes this way is comparing characters this way).
pub open spec fn eq_ignore_ascii_case(a: Seq<char>, b: Seq<char>) -> bool {
    a.len() == b.len() && forall|i: int| 0 <= i < a.len() ==> ascii_lower(a[i]) == ascii_lower(b[i])
}

fn lower_ascii_char(c: char) -> (r: u32)
    ensures
        r == ascii_lower(c) as u32,
{
    let n = c as u32;
    if 'A' as u32 <= n && n <= 'Z' as u32 {
        n + 32
    } else {
        n
    }
}

pub fn chars_eq_ignore_ascii_case(a: &Vec<char>, b: &Vec<char>) -> (r: bool)
    ensures
        r == eq_ignore_ascii_case(a@, b@),
{
    if a.len() != b.len() {
        return false;
    }
    let mut i: usize = 0;
    while i < a.len()
        invariant
            a.len() == b.len(),
            i <= a.len(),
            forall|k: int| 0 <= k < i ==> ascii_lower(a@[k]) == ascii_lower(b@[k]),
        decreases a.len() - i,
    {
        let x = lower_ascii_char(a[i]);
        let y = lower_ascii_char(b[i]);
        if x != y {
            return false;
        }
        i = i + 1;
    }
    true
}

// ---------------------------------------------------------------------------
// Order

/// Lexicographic order by character code, which for UTF-8 text is the byte order that
/// `String`'s `Ord` uses.
pub open spec fn lex_lt(a: Seq<char>, b: Seq<char>) -> bool
    decreases a.len(),
{
    if a.len() == 0 {
        b.len() > 0
    } else if b.len() == 0 {
        false
    } else if a[0] != b[0] {
        a[0] < b[0]
    } else {
        lex_lt(a.skip(1), b.skip(1))
    }
}

pub proof fn lemma_lex_irreflexive(a: Seq<char>)
    ensures
        !lex_lt(a, a),
    decreases a.len(),
{
    if a.len() > 0 {
        lemma_lex_irreflexive(a.skip(1));
    }
}

pub proof fn lemma_lex_total(a: Seq<char>, b: Seq<char>)
    ensures
        lex_lt(a, b) || lex_lt(b, a) || a == b,
    decreases a.len(),
{
    if a.len() > 0 && b.len() > 0 && a[0] == b[0] {
        lemma_lex_total(a.skip(1), b.skip(1));
        if a.skip(1) == b.skip(1) {
            assert(a =~= seq![a[0]] + a.skip(1));
            assert(b =~= seq![b[0]] + b.skip(1));
        }
    } else if a.len() == 0 && b.len() == 0 {
        assert(a =~= b);
    } else if a.len() > 0 && b.len() > 0 {
        assert(a[0] < b[0] || b[0] < a[0]);
    }
}

pub proof fn lemma_lex_asymmetric(a: Seq<char>, b: Seq<char>)
    ensures
        !(lex_lt(a, b) && lex_lt(b, a)),
    decreases a.len(),
{
    if a.len() > 0 && b.len() > 0 && a[0] == b[0] {
        lemma_lex_asymmetric(a.skip(1), b.skip(1));
    }
}

pub proof fn lemma_lex_transitive(a: Seq<char>, b: Seq<char>, c: Seq<char>)
    requires
        lex_lt(a, b),
        lex_lt(b, c),
    ensures
        lex_lt(a, c),
    decreases a.len(),
{
    if a.len() > 0 && b.len() > 0 && c.len() > 0 && a[0] == b[0] && b[0] == c[0] {
        lemma_lex_transitive(a.skip(1), b.skip(1), c.skip(1));
    }
}

/// Is `a` before `b` in code-point order?
pub fn chars_lex_lt(a: &Vec<char>, b: &Vec<char>) -> (r: bool)
    ensures
        r == lex_lt(a@, b@),
{
    let mut i: usize = 0;
    assert(a@.skip(0) =~= a@);
    assert(b@.skip(0) =~= b@);
    while i < a.len() && i < b.len() && a[i] == b[i]
        invariant
            i <= a.len(),
            i <= b.len(),
            lex_lt(a@.skip(i as int), b@.skip(i as int)) == lex_lt(a@, b@),
        decreases a.len() - i,
    {
        assert(a@.skip(i as int).skip(1) =~= a@.skip(i + 1));
        assert(b@.skip(i as int).skip(1) =~= b@.skip(i + 1));
        i = i + 1;
    }
    if i == a.len() {
        i < b.len()
    } else if i == b.len() {
        false
    } else {
        a[i] < b[i]
    }
}

/// Are `a` and `b` the same characters?
pub fn chars_equal(a: &Vec<char>, b: &Vec<char>) -> (r: bool)
    ensures
        r == (a@ == b@),
{
    if a.len() != b.len() {
        return false;
    }
    let r = matches_at(a, b, 0);
    assert(a@.subrange(0, b@.len() as int) =~= a@);
    r
}

/// The first whitespace-separated word of `s`, if any.
pub fn first_word(s: &str) -> (r: Option<String>)
    ensures
        match r {
            Some(w) => words(s@).len() > 0 && w@ == words(s@)[0],
            None => words(s@).len() == 0,
        },
{
    let sc = chars_of(s);
    let ws = split_words(&sc);
    if ws.len() > 0 {
        assert(ws@[0]@ =~= ws.deep_view()[0]);
        Some(string_of(ws[0].as_slice()))
    } else {
        None
    }
}

} // verus!
