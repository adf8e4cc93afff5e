//! The token payload: a fixed-shape JSON object `{"sub":"...","exp":N}`.
//!
//! The writer emits exactly this canonical shape; the parser accepts exactly
//! it. The subject string is carried verbatim, so its characters are
//! restricted to printable ASCII without `"` or `\` (`token_safe`); a subject
//! outside that set cannot be framed and a payload holding such characters is
//! rejected.

use vstd::prelude::*;

use crate::decimal::{all_digits, dec_digits, dec_val, format_u64, parse_u64_range};
use crate::decimal::{lemma_dec_digits_are_digits, lemma_dec_val_of_digits};
use crate::text::{char_code, find_from, find_in_chars, lemma_find_from_found};

verus! {

/// A character the payload may carry verbatim inside the subject string.
pub open spec fn safe_char(c: char) -> bool {
    32 <= char_code(c) && char_code(c) < 127 && c != '"' && c != '\\'
}

pub open spec fn token_safe(s: Seq<char>) -> bool {
    forall|i: int| 0 <= i < s.len() ==> safe_char(s[i])
}

/// The eight characters before the subject: `{"sub":"`.
pub open spec fn pre() -> Seq<char> {
    seq!['{', '"', 's', 'u', 'b', '"', ':', '"']
}

/// The eight characters between subject and expiry: `","exp":`.
pub open spec fn mid() -> Seq<char> {
    seq!['"', ',', '"', 'e', 'x', 'p', '"', ':']
}

/// The canonical payload text for a subject and an expiry.
pub open spec fn payload_chars(sub: Seq<char>, exp: u64) -> Seq<char> {
    pre() + sub + mid() + dec_digits(exp as nat) + seq!['}']
}

/// Parse a payload: `Some((sub, exp))` exactly for the canonical text of a
/// safe subject and an expiry that fits a u64.
pub open spec fn parse_payload(s: Seq<char>) -> Option<(Seq<char>, u64)> {
    if s.len() < 8 || s.subrange(0, 8) != pre() {
        None
    } else {
        match find_from(s, 8, '"') {
            None => None,
            Some(q) => if q + 10 <= s.len() && s.subrange(q, q + 8) == mid() && s.last() == '}'
                && token_safe(s.subrange(8, q)) {
                let digits = s.subrange(q + 8, s.len() - 1);
                if all_digits(digits) && dec_val(digits) <= u64::MAX {
                    Some((s.subrange(8, q), dec_val(digits) as u64))
                } else {
                    None
                }
            } else {
                None
            },
        }
    }
}

fn safe_char_c(c: char) -> (r: bool)
    ensures
        r == safe_char(c),
{
    let u = c as u32;
    32 <= u && u < 127 && c != '"' && c != '\\'
}

/// Whether every character of `v` may sit verbatim in a payload subject.
pub fn token_safe_chars(v: &Vec<char>) -> (r: bool)
    ensures
        r == token_safe(v@),
{
    let mut i: usize = 0;
    let len = v.len();
    while i < len
        invariant
            i <= len,
            len == v@.len(),
            forall|j: int| 0 <= j < i ==> safe_char(v@[j]),
        decreases len - i,
    {
        if !safe_char_c(v[i]) {
            return false;
        }
        i += 1;
    }
    true
}

/// Append `src` to `out`.
pub fn push_all(out: &mut Vec<char>, src: &Vec<char>)
    ensures
        final(out)@ == old(out)@ + src@,
{
    let mut k: usize = 0;
    let len = src.len();
    while k < len
        invariant
            k <= len,
            len == src@.len(),
            out@ == old(out)@ + src@.take(k as int),
        decreases len - k,
    {
        out.push(src[k]);
        proof {
            assert(old(out)@ + src@.take(k as int) + seq![src@[k as int]] =~= old(out)@
                + src@.take(k + 1));
        }
        k += 1;
    }
    proof {
        assert(src@.take(len as int) =~= src@);
    }
}

/// Write the canonical payload text.
pub fn write_payload(sub: &Vec<char>, exp: u64) -> (r: Vec<char>)
    ensures
        r@ == payload_chars(sub@, exp),
{
    let mut out: Vec<char> = Vec::new();
    out.push('{');
    out.push('"');
    out.push('s');
    out.push('u');
    out.push('b');
    out.push('"');
    out.push(':');
    out.push('"');
    proof {
        assert(out@ =~= pre());
    }
    push_all(&mut out, sub);
    out.push('"');
    out.push(',');
    out.push('"');
    out.push('e');
    out.push('x');
    out.push('p');
    out.push('"');
    out.push(':');
    proof {
        assert(out@ =~= pre() + sub@ + mid());
    }
    let digits = format_u64(exp);
    push_all(&mut out, &digits);
    out.push('}');
    proof {
        assert(out@ =~= payload_chars(sub@, exp));
    }
    out
}

/// Parse a payload text; mirrors `parse_payload` exactly.
pub fn parse_payload_chars(v: &Vec<char>) -> (r: Option<(Vec<char>, u64)>)
    ensures
        match r {
            Some(p) => parse_payload(v@) == Some((p.0@, p.1)),
            None => parse_payload(v@) is None,
        },
{
    let len = v.len();
    if len < 8 {
        return None;
    }
    if !(v[0] == '{' && v[1] == '"' && v[2] == 's' && v[3] == 'u' && v[4] == 'b' && v[5] == '"'
        && v[6] == ':' && v[7] == '"') {
        proof {
            assert(v@.subrange(0, 8) != pre());
        }
        return None;
    }
    proof {
        assert(v@.subrange(0, 8) =~= pre());
    }
    let q = match find_in_chars(v, 8, '"') {
        Some(q) => q,
        None => {
            return None;
        },
    };
    if len - q < 10 {
        return None;
    }
    if !(v[q] == '"' && v[q + 1] == ',' && v[q + 2] == '"' && v[q + 3] == 'e' && v[q + 4] == 'x'
        && v[q + 5] == 'p' && v[q + 6] == '"' && v[q + 7] == ':') {
        proof {
            assert(v@.subrange(q as int, q + 8) != mid());
        }
        return None;
    }
    proof {
        assert(v@.subrange(q as int, q + 8) =~= mid());
    }
    if v[len - 1] != '}' {
        return None;
    }
    let mut sub: Vec<char> = Vec::new();
    let mut k: usize = 8;
    while k < q
        invariant
            8 <= k <= q,
            (q as int) < v@.len(),
            sub@ == v@.subrange(8, k as int),
        decreases q - k,
    {
        sub.push(v[k]);
        proof {
            assert(v@.subrange(8, k as int) + seq![v@[k as int]] =~= v@.subrange(8, k + 1));
        }
        k += 1;
    }
    if !token_safe_chars(&sub) {
        return None;
    }
    match parse_u64_range(v, q + 8, len - 1) {
        Some(x) => Some((sub, x)),
        None => None,
    }
}

/// The canonical payload of a safe subject parses back to exactly that
/// subject and expiry.
pub proof fn lemma_payload_roundtrip(sub: Seq<char>, exp: u64)
    requires
        token_safe(sub),
    ensures
        parse_payload(payload_chars(sub, exp)) == Some((sub, exp)),
{
    let s = payload_chars(sub, exp);
    let d = dec_digits(exp as nat);
    lemma_dec_digits_are_digits(exp as nat);
    lemma_dec_val_of_digits(exp as nat);
    let q = 8 + sub.len() as int;
    assert(s.len() == 17 + sub.len() + d.len());
    assert(s.subrange(0, 8) =~= pre());
    assert(forall|j: int| 8 <= j < q ==> s[j] == sub[j - 8]);
    assert(s[q] == '"');
    assert(forall|j: int| 8 <= j < q ==> s[j] != '"');
    lemma_find_from_found(s, 8, q, '"');
    assert(s.subrange(8, q) =~= sub);
    assert(s.subrange(q, q + 8) =~= mid());
    assert(s.last() == '}');
    assert(s.subrange(q + 8, s.len() - 1) =~= d);
    assert(dec_val(d) == exp);
}

} // verus!
