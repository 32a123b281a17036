//! Character-level building blocks: whitespace, trimming, prefixes and
//! searching, all stated over `Seq<char>` and carried out on `Vec<char>`.

use vstd::prelude::*;

verus! {

/// Whether `c` carries the Unicode `White_Space` property.
pub open spec fn is_space(c: char) -> bool {
    let n = c as u32;
    (0x09 <= n <= 0x0D) || n == 0x20 || n == 0x85 || n == 0xA0 || n == 0x1680 || (0x2000 <= n
        <= 0x200A) || n == 0x2028 || n == 0x2029 || n == 0x202F || n == 0x205F || n == 0x3000
}

/// The text of an optional string.
pub open spec fn text_of(raw: Option<String>) -> Option<Seq<char>> {
    match raw {
        Some(s) => Some(s@),
        None => None,
    }
}

/// `s` without its leading whitespace.
pub open spec fn trim_start(s: Seq<char>) -> Seq<char>
    decreases s.len(),
{
    if s.len() > 0 && is_space(s[0]) {
        trim_start(s.skip(1))
    } else {
        s
    }
}

/// `s` without its trailing whitespace.
pub open spec fn trim_end(s: Seq<char>) -> Seq<char>
    decreases s.len(),
{
    if s.len() > 0 && is_space(s.last()) {
        trim_end(s.drop_last())
    } else {
        s
    }
}

/// `s` without leading and trailing whitespace.
pub open spec fn trimmed(s: Seq<char>) -> Seq<char> {
    trim_end(trim_start(s))
}

/// What follows `p` in `s`, if `s` starts with `p`.
pub open spec fn strip_prefix(s: Seq<char>, p: Seq<char>) -> Option<Seq<char>> {
    if p.is_prefix_of(s) {
        Some(s.skip(p.len() as int))
    } else {
        None
    }
}

/// The index of the first `c` in `s`, or `s.len()` if there is none.
pub open spec fn index_of(s: Seq<char>, c: char) -> int
    decreases s.len(),
{
    if s.len() == 0 || s[0] == c {
        0
    } else {
        1 + index_of(s.skip(1), c)
    }
}

/// `index_of` stays within the sequence, finds `c`, and passes over no `c`.
pub proof fn lemma_index_of(s: Seq<char>, c: char)
    ensures
        0 <= index_of(s, c) <= s.len(),
        index_of(s, c) < s.len() ==> s[index_of(s, c)] == c,
        forall|i: int| 0 <= i < index_of(s, c) ==> s[i] != c,
    decreases s.len(),
{
    if s.len() == 0 || s[0] == c {
    } else {
        lemma_index_of(s.skip(1), c);
        assert forall|i: int| 0 <= i < index_of(s, c) implies s[i] != c by {
            if i > 0 {
                assert(s.skip(1)[i - 1] == s[i]);
            }
        }
    }
}

/// Where `c` is not among the first `k` characters of `s`, and is the next
/// one if there is a next one, `k` is where `index_of` finds it.
pub proof fn lemma_index_of_is(s: Seq<char>, c: char, k: int)
    requires
        0 <= k <= s.len(),
        forall|i: int| 0 <= i < k ==> s[i] != c,
        k == s.len() || s[k] == c,
    ensures
        index_of(s, c) == k,
{
    lemma_index_of(s, c);
}

/// What neither starts nor ends with whitespace is its own trimmed form.
pub proof fn lemma_trimmed_is(s: Seq<char>)
    requires
        s.len() > 0 ==> !is_space(s[0]) && !is_space(s.last()),
    ensures
        trimmed(s) == s,
{
}

/// The characters of `s`, in order.
pub fn chars_of(s: &str) -> (v: Vec<char>)
    ensures
        v@ == s@,
{
    let mut v: Vec<char> = Vec::new();
    for c in it: s.chars()
        invariant
            v@ == it.seq().take(it.index() as int),
            it.seq() == s@,
    {
        v.push(c);
    }
    v
}

/// Whether `c` is whitespace.
pub fn is_whitespace(c: char) -> (b: bool)
    ensures
        b == is_space(c),
{
    let n: u32 = c as u32;
    (0x09 <= n && n <= 0x0D) || n == 0x20 || n == 0x85 || n == 0xA0 || n == 0x1680 || (0x2000 <= n
        && n <= 0x200A) || n == 0x2028 || n == 0x2029 || n == 0x202F || n == 0x205F || n
        == 0x3000
}

/// Whether `a` and `b` hold the same characters.
pub fn same_chars(a: &Vec<char>, b: &Vec<char>) -> (eq: bool)
    ensures
        eq == (a@ == b@),
{
    if a.len() != b.len() {
        return false;
    }
    let mut i: usize = 0;
    while i < a.len()
        invariant
            i <= a.len(),
            a.len() == b.len(),
            forall|j: int| 0 <= j < i ==> a@[j] == b@[j],
        decreases a.len() - i,
    {
        if a[i] != b[i] {
            return false;
        }
        i += 1;
    }
    assert(a@ =~= b@);
    true
}

/// Whether `a` and `b` are the same text.
pub fn same_text(a: &str, b: &str) -> (eq: bool)
    ensures
        eq == (a@ == b@),
{
    let a_chars = chars_of(a);
    let b_chars = chars_of(b);
    same_chars(&a_chars, &b_chars)
}

/// Whether the window `h[from..to]` starts with `p`.
pub fn window_has_prefix(h: &Vec<char>, from: usize, to: usize, p: &Vec<char>) -> (b: bool)
    requires
        from <= to <= h.len(),
    ensures
        b == p@.is_prefix_of(h@.subrange(from as int, to as int)),
{
    let ghost w = h@.subrange(from as int, to as int);
    if p.len() > to - from {
        return false;
    }
    let mut i: usize = 0;
    while i < p.len()
        invariant
            i <= p.len() <= to - from,
            from <= to <= h.len(),
            w == h@.subrange(from as int, to as int),
            forall|j: int| 0 <= j < i ==> w[j] == p@[j],
        decreases p.len() - i,
    {
        if h[from + i] != p[i] {
            assert(w[i as int] != p@[i as int]);
            assert(w.subrange(0, p@.len() as int)[i as int] == w[i as int]);
            return false;
        }
        i += 1;
    }
    assert(p@ =~= w.subrange(0, p@.len() as int));
    true
}

/// The first position at or after `from` that holds `c`, or `h.len()`.
pub fn find_from(h: &Vec<char>, from: usize, c: char) -> (p: usize)
    requires
        from <= h.len(),
    ensures
        from <= p <= h.len(),
        p - from == index_of(h@.skip(from as int), c),
{
    let mut p: usize = from;
    while p < h.len() && h[p] != c
        invariant
            from <= p <= h.len(),
            index_of(h@.skip(from as int), c) == (p - from) + index_of(h@.skip(p as int), c),
        decreases h.len() - p,
    {
        assert(h@.skip(p as int)[0] == h@[p as int]);
        assert(h@.skip(p as int).skip(1) =~= h@.skip(p + 1));
        p += 1;
    }
    proof {
        if p < h.len() {
            assert(h@.skip(p as int)[0] == h@[p as int]);
        }
    }
    p
}

/// The bounds of the window `h[from..to]` once it is trimmed.
pub fn trim_window(h: &Vec<char>, from: usize, to: usize) -> (r: (usize, usize))
    requires
        from <= to <= h.len(),
    ensures
        from <= r.0 <= r.1 <= to,
        h@.subrange(r.0 as int, r.1 as int) == trimmed(h@.subrange(from as int, to as int)),
{
    let mut a: usize = from;
    while a < to && is_whitespace(h[a])
        invariant
            from <= a <= to <= h.len(),
            trim_start(h@.subrange(from as int, to as int)) == trim_start(
                h@.subrange(a as int, to as int),
            ),
        decreases to - a,
    {
        assert(h@.subrange(a as int, to as int)[0] == h@[a as int]);
        assert(h@.subrange(a as int, to as int).skip(1) =~= h@.subrange(a + 1, to as int));
        a += 1;
    }
    proof {
        if a < to {
            assert(h@.subrange(a as int, to as int)[0] == h@[a as int]);
        }
    }
    let mut b: usize = to;
    while b > a && is_whitespace(h[b - 1])
        invariant
            a <= b <= to <= h.len(),
            trim_end(h@.subrange(a as int, to as int)) == trim_end(
                h@.subrange(a as int, b as int),
            ),
        decreases b - a,
    {
        assert(h@.subrange(a as int, b as int).last() == h@[b - 1]);
        assert(h@.subrange(a as int, b as int).drop_last() =~= h@.subrange(a as int, b - 1));
        b -= 1;
    }
    proof {
        if b > a {
            assert(h@.subrange(a as int, b as int).last() == h@[b - 1]);
        }
    }
    (a, b)
}

} // verus!
