//! Helpers over character vectors: the dispatch core stores every piece of
//! text (ids, message text, nicknames) as a `Vec<char>` whose view is a
//! `Seq<char>`.

use vstd::prelude::*;

verus! {

/// `p` is a prefix of `s`.
pub open spec fn starts_with(s: Seq<char>, p: Seq<char>) -> bool {
    p.len() <= s.len() && s.subrange(0, p.len() as int) == p
}

/// ASCII whitespace: the class trimmed from message text.
pub open spec fn is_space(c: char) -> bool {
    c == ' ' || c == '\t' || c == '\n' || c == '\r' || c == '\u{000C}'
}

/// `s` with every leading whitespace character removed.
pub open spec fn trim_start_of(s: Seq<char>) -> Seq<char>
    decreases s.len(),
{
    if s.len() > 0 && is_space(s[0]) {
        trim_start_of(s.drop_first())
    } else {
        s
    }
}

/// `s` with every trailing whitespace character removed.
pub open spec fn trim_end_of(s: Seq<char>) -> Seq<char>
    decreases s.len(),
{
    if s.len() > 0 && is_space(s[s.len() - 1]) {
        trim_end_of(s.drop_last())
    } else {
        s
    }
}

/// The view of an optional character vector.
pub open spec fn opt_chars(o: Option<Vec<char>>) -> Option<Seq<char>> {
    match o {
        Some(v) => Some(v@),
        None => None,
    }
}

pub fn is_space_char(c: char) -> (r: bool)
    ensures
        r == is_space(c),
{
    c == ' ' || c == '\t' || c == '\n' || c == '\r' || c == '\u{000C}'
}

/// Character-for-character equality of two vectors.
pub fn chars_eq(a: &Vec<char>, b: &Vec<char>) -> (r: bool)
    ensures
        r == (a@ == b@),
{
    if a.len() != b.len() {
        return false;
    }
    let mut i: usize = 0;
    while i < a.len()
        invariant
            a@.len() == b@.len(),
            i <= a@.len(),
            forall|j: int| 0 <= j < i ==> a@[j] == b@[j],
        decreases a@.len() - i,
    {
        if a[i] != b[i] {
            return false;
        }
        i = i + 1;
    }
    proof {
        assert(a@ =~= b@);
    }
    true
}

/// Whether `o` holds exactly the characters of `b`.
pub fn opt_chars_is(o: &Option<Vec<char>>, b: &Vec<char>) -> (r: bool)
    ensures
        r == (opt_chars(*o) == Some(b@)),
{
    match o {
        Some(v) => chars_eq(v, b),
        None => false,
    }
}

/// Whether `p` is a prefix of `s`.
pub fn chars_start_with(s: &Vec<char>, p: &Vec<char>) -> (r: bool)
    ensures
        r == starts_with(s@, p@),
{
    if p.len() > s.len() {
        return false;
    }
    let mut i: usize = 0;
    while i < p.len()
        invariant
            p@.len() <= s@.len(),
            i <= p@.len(),
            forall|j: int| 0 <= j < i ==> s@[j] == p@[j],
        decreases p@.len() - i,
    {
        if s[i] != p[i] {
            proof {
                assert(s@.subrange(0, p@.len() as int)[i as int] != p@[i as int]);
            }
            return false;
        }
        i = i + 1;
    }
    proof {
        assert(s@.subrange(0, p@.len() as int) =~= p@);
    }
    true
}

/// A copy of `v` with the same characters.
pub fn clone_chars(v: &Vec<char>) -> (r: Vec<char>)
    ensures
        r@ == v@,
{
    let mut r: Vec<char> = Vec::new();
    let mut i: usize = 0;
    while i < v.len()
        invariant
            i <= v@.len(),
            r@ == v@.subrange(0, i as int),
        decreases v@.len() - i,
    {
        r.push(v[i]);
        proof {
            assert(r@ =~= v@.subrange(0, i + 1 as int));
        }
        i = i + 1;
    }
    proof {
        assert(v@.subrange(0, v@.len() as int) =~= v@);
    }
    r
}

/// A copy of an optional character vector.
pub fn clone_opt_chars(o: &Option<Vec<char>>) -> (r: Option<Vec<char>>)
    ensures
        opt_chars(r) == opt_chars(*o),
{
    match o {
        Some(v) => Some(clone_chars(v)),
        None => None,
    }
}

/// The characters of `v` from position `k` on.
pub fn chars_suffix(v: &Vec<char>, k: usize) -> (r: Vec<char>)
    requires
        k <= v@.len(),
    ensures
        r@ == v@.skip(k as int),
{
    let mut r: Vec<char> = Vec::new();
    let mut i: usize = k;
    while i < v.len()
        invariant
            k <= i <= v@.len(),
            r@ == v@.subrange(k as int, i as int),
        decreases v@.len() - i,
    {
        r.push(v[i]);
        proof {
            assert(r@ =~= v@.subrange(k as int, i + 1 as int));
        }
        i = i + 1;
    }
    proof {
        assert(v@.subrange(k as int, v@.len() as int) =~= v@.skip(k as int));
    }
    r
}

/// Appends the characters of `src` to `dst`.
pub fn append_chars(dst: &mut Vec<char>, src: &Vec<char>)
    ensures
        final(dst)@ == old(dst)@ + src@,
{
    proof {
        assert(old(dst)@ + src@.subrange(0, 0int) =~= old(dst)@);
    }
    let mut i: usize = 0;
    while i < src.len()
        invariant
            i <= src@.len(),
            dst@ == old(dst)@ + src@.subrange(0, i as int),
        decreases src@.len() - i,
    {
        dst.push(src[i]);
        proof {
            assert(dst@ =~= old(dst)@ + src@.subrange(0, i + 1 as int));
        }
        i = i + 1;
    }
    proof {
        assert(old(dst)@ + src@.subrange(0, src@.len() as int) =~= old(dst)@ + src@);
    }
}

proof fn lemma_trim_start_skip(s: Seq<char>, k: int)
    requires
        0 <= k <= s.len(),
        forall|j: int| 0 <= j < k ==> is_space(s[j]),
        k == s.len() || !is_space(s[k]),
    ensures
        trim_start_of(s) == s.skip(k),
    decreases k,
{
    if k == 0 {
        assert(s.skip(0) =~= s);
    } else {
        assert(is_space(s[0]));
        assert(forall|j: int| 0 <= j < k - 1 ==> is_space(s.drop_first()[j]));
        lemma_trim_start_skip(s.drop_first(), k - 1);
        assert(s.drop_first().skip(k - 1) =~= s.skip(k));
    }
}

proof fn lemma_trim_end_take(s: Seq<char>, m: int)
    requires
        0 <= m <= s.len(),
        forall|j: int| m <= j < s.len() ==> is_space(s[j]),
        m == 0 || !is_space(s[m - 1]),
    ensures
        trim_end_of(s) == s.take(m),
    decreases s.len() - m,
{
    if m == s.len() {
        assert(s.take(m) =~= s);
    } else {
        assert(is_space(s[s.len() - 1]));
        assert(forall|j: int| m <= j < s.drop_last().len() ==> is_space(s.drop_last()[j]));
        lemma_trim_end_take(s.drop_last(), m);
        assert(s.drop_last().take(m) =~= s.take(m));
    }
}

/// Removes leading whitespace from `v` in place.
pub fn trim_start_chars(v: &mut Vec<char>)
    ensures
        final(v)@ == trim_start_of(old(v)@),
{
    let mut k: usize = 0;
    while k < v.len() && is_space_char(v[k])
        invariant
            k <= v@.len(),
            v@ == old(v)@,
            forall|j: int| 0 <= j < k ==> is_space(v@[j]),
        decreases v@.len() - k,
    {
        k = k + 1;
    }
    proof {
        lemma_trim_start_skip(v@, k as int);
    }
    let r = chars_suffix(v, k);
    *v = r;
}

/// Removes trailing whitespace from `v` in place.
pub fn trim_end_chars(v: &mut Vec<char>)
    ensures
        final(v)@ == trim_end_of(old(v)@),
{
    let mut m: usize = v.len();
    while m > 0 && is_space_char(v[m - 1])
        invariant
            m <= v@.len(),
            v@ == old(v)@,
            forall|j: int| m <= j < v@.len() ==> is_space(v@[j]),
        decreases m,
    {
        m = m - 1;
    }
    proof {
        lemma_trim_end_take(v@, m as int);
    }
    v.truncate(m);
}

} // verus!
