//! Conversions between `String` and character vectors.
//!
//! All internal logic of this crate works on `Vec<char>`, whose view is the
//! same `Seq<char>` as a string's view; these are the only places where a
//! string is assembled from characters.

use vstd::prelude::*;
use vstd::string::StrSliceExecFns;

verus! {

/// Relies on str::chars: the iterator yields exactly the characters of the
/// string, in order.
#[verifier::external_body]
pub fn str_chars(s: &str) -> (r: Vec<char>)
    ensures
        r@ == s@,
{
    s.chars().collect()
}

/// Relies on String's FromIterator<char> impl: collecting characters builds
/// the string of exactly those characters, in order.
#[verifier::external_body]
pub fn chars_string(v: &Vec<char>) -> (r: String)
    ensures
        r@ == v@,
{
    v.iter().collect()
}

/// The Unicode code point of a character, as a mathematical integer.
pub open spec fn char_code(c: char) -> int {
    c as u32 as int
}

/// Position of the first occurrence of `c` in `s` at or after `i`.
pub open spec fn find_from(s: Seq<char>, i: int, c: char) -> Option<int>
    decreases s.len() - i,
{
    if i < 0 || i >= s.len() {
        None
    } else if s[i] == c {
        Some(i)
    } else {
        find_from(s, i + 1, c)
    }
}

/// `find_from` returns exactly the first occurrence: if `c` sits at `q` and
/// nowhere earlier (from `i` on), the search from `i` finds `q`.
pub proof fn lemma_find_from_found(s: Seq<char>, i: int, q: int, c: char)
    requires
        0 <= i <= q < s.len(),
        s[q] == c,
        forall|j: int| i <= j < q ==> s[j] != c,
    ensures
        find_from(s, i, c) == Some(q),
    decreases q - i,
{
    if i < q {
        lemma_find_from_found(s, i + 1, q, c);
    }
}

/// First occurrence of `c` in `v` at or after `from`.
pub fn find_in_chars(v: &Vec<char>, from: usize, c: char) -> (r: Option<usize>)
    requires
        from <= v@.len(),
    ensures
        match r {
            Some(k) => from <= k && (k as int) < v@.len() && find_from(v@, from as int, c)
                == Some(k as int),
            None => find_from(v@, from as int, c) is None,
        },
{
    let len = v.len();
    let mut i: usize = from;
    while i < len
        invariant
            from <= i <= len,
            len == v@.len(),
            find_from(v@, from as int, c) == find_from(v@, i as int, c),
        decreases len - i,
    {
        if v[i] == c {
            return Some(i);
        }
        i += 1;
    }
    None
}

/// Character-for-character string equality, proved against the views.
pub fn str_eq(a: &str, b: &str) -> (r: bool)
    ensures
        r == (a@ == b@),
{
    let alen = a.unicode_len();
    let blen = b.unicode_len();
    if alen != blen {
        return false;
    }
    let mut i: usize = 0;
    while i < alen
        invariant
            alen == a@.len(),
            alen == b@.len(),
            i <= alen,
            forall|j: int| 0 <= j < i ==> a@[j] == b@[j],
        decreases alen - i,
    {
        if a.get_char(i) != b.get_char(i) {
            return false;
        }
        i += 1;
    }
    proof {
        assert(a@ =~= b@);
    }
    true
}

/// Element-wise equality of two character vectors.
pub fn chars_eq(a: &Vec<char>, b: &Vec<char>) -> (r: bool)
    ensures
        r == (a@ == b@),
{
    if a.len() != b.len() {
        return false;
    }
    let len = a.len();
    let mut i: usize = 0;
    while i < len
        invariant
            i <= len,
            len == a@.len(),
            len == b@.len(),
            forall|j: int| 0 <= j < i ==> a@[j] == b@[j],
        decreases len - i,
    {
        if a[i] != b[i] {
            return false;
        }
        i += 1;
    }
    proof {
        assert(a@ =~= b@);
    }
    true
}

/// The characters of `v` on `[a, b)`, as a fresh vector.
pub fn subvec(v: &Vec<char>, a: usize, b: usize) -> (r: Vec<char>)
    requires
        a <= b && b <= v@.len(),
    ensures
        r@ == v@.subrange(a as int, b as int),
{
    let mut out: Vec<char> = Vec::new();
    let mut k: usize = a;
    while k < b
        invariant
            a <= k <= b,
            b <= v@.len(),
            out@ == v@.subrange(a as int, k as int),
        decreases b - k,
    {
        out.push(v[k]);
        proof {
            assert(v@.subrange(a as int, k as int) + seq![v@[k as int]] =~= v@.subrange(
                a as int,
                k + 1,
            ));
        }
        k += 1;
    }
    out
}

} // verus!
