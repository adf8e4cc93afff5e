//! Decimal rendering and parsing of unsigned 64-bit numbers, used for the
//! `exp` field of the token payload.

use vstd::prelude::*;
use vstd::arithmetic::div_mod::lemma_fundamental_div_mod_converse;

verus! {

pub open spec fn is_digit(c: char) -> bool {
    48 <= c as u32 && c as u32 <= 57
}

pub open spec fn digit_char(d: int) -> char {
    ((48 + d) as u8) as char
}

pub open spec fn digit_val(c: char) -> int {
    c as u32 - 48
}

/// The canonical decimal spelling of `n`, most significant digit first.
pub open spec fn dec_digits(n: nat) -> Seq<char>
    decreases n,
{
    if n < 10 {
        seq![digit_char(n as int)]
    } else {
        dec_digits(n / 10) + seq![digit_char((n % 10) as int)]
    }
}

pub open spec fn all_digits(s: Seq<char>) -> bool {
    forall|i: int| 0 <= i < s.len() ==> is_digit(s[i])
}

/// The numeric value of a digit string, most significant digit first.
pub open spec fn dec_val(s: Seq<char>) -> int
    decreases s.len(),
{
    if s.len() == 0 {
        0
    } else {
        dec_val(s.drop_last()) * 10 + digit_val(s.last())
    }
}

pub proof fn lemma_dec_digits_are_digits(n: nat)
    ensures
        dec_digits(n).len() >= 1,
        all_digits(dec_digits(n)),
    decreases n,
{
    if n < 10 {
        assert(dec_digits(n) == seq![digit_char(n as int)]);
        assert(is_digit(digit_char(n as int)));
    } else {
        lemma_dec_digits_are_digits(n / 10);
        assert(0 <= n % 10 < 10);
        assert(is_digit(digit_char((n % 10) as int)));
        assert(forall|i: int|
            0 <= i < dec_digits(n).len() - 1 ==> dec_digits(n)[i] == dec_digits(n / 10)[i]);
    }
}

pub proof fn lemma_dec_val_of_digits(n: nat)
    ensures
        dec_val(dec_digits(n)) == n,
    decreases n,
{
    if n < 10 {
        let s = dec_digits(n);
        assert(s.drop_last() =~= Seq::<char>::empty());
        assert(dec_val(Seq::<char>::empty()) == 0);
        assert(digit_val(digit_char(n as int)) == n);
        assert(dec_val(s) == n);
    } else {
        lemma_dec_val_of_digits(n / 10);
        let s = dec_digits(n);
        assert(s.drop_last() =~= dec_digits(n / 10));
        assert(digit_val(digit_char((n % 10) as int)) == n % 10);
        assert(dec_val(s) == (n / 10) * 10 + n % 10);
        assert(dec_val(s) == n);
    }
}

fn digit_char_c(d: u64) -> (r: char)
    requires
        d < 10,
    ensures
        r == digit_char(d as int),
{
    ((48 + d) as u8) as char
}

/// Render `n` in decimal, most significant digit first.
pub fn format_u64(n: u64) -> (r: Vec<char>)
    ensures
        r@ == dec_digits(n as nat),
    decreases n,
{
    if n < 10 {
        let mut v: Vec<char> = Vec::new();
        v.push(digit_char_c(n));
        proof {
            assert(v@ =~= dec_digits(n as nat));
        }
        v
    } else {
        let mut v = format_u64(n / 10);
        v.push(digit_char_c(n % 10));
        proof {
            assert(v@ =~= dec_digits(n as nat));
        }
        v
    }
}

/// Parse the digit region `[a, b)` of `v` as a decimal u64. `None` when the
/// region is empty, holds a non-digit, or the value exceeds `u64::MAX`.
pub fn parse_u64_range(v: &Vec<char>, a: usize, b: usize) -> (r: Option<u64>)
    requires
        a <= b && b <= v@.len(),
    ensures
        ({
            let s = v@.subrange(a as int, b as int);
            match r {
                Some(x) => a < b && all_digits(s) && x == dec_val(s),
                None => a == b || !all_digits(s) || dec_val(s) > u64::MAX,
            }
        }),
{
    let ghost s = v@.subrange(a as int, b as int);
    if a == b {
        return None;
    }
    let mut acc: u64 = 0;
    let mut i: usize = a;
    while i < b
        invariant
            a <= i <= b,
            b <= v@.len(),
            s == v@.subrange(a as int, b as int),
            all_digits(s.take(i - a)),
            acc == dec_val(s.take(i - a)),
        decreases b - i,
    {
        let c = v[i];
        let u = c as u32;
        if u < 48 || u > 57 {
            proof {
                assert(s[i - a] == c);
                assert(!is_digit(s[i - a]));
            }
            return None;
        }
        let d = (u - 48) as u64;
        if acc > (u64::MAX - d) / 10 {
            proof {
                assert(s.take(i - a + 1).drop_last() =~= s.take(i - a));
                assert(s.take(i - a + 1).last() == c);
                assert(dec_val(s.take(i - a + 1)) == acc * 10 + d);
                assert(acc * 10 + d > u64::MAX) by {
                    lemma_div_bound((u64::MAX - d) as int, acc as int);
                };
                if all_digits(s) {
                    lemma_dec_val_extend(s, i - a + 1);
                }
            }
            return None;
        }
        proof {
            assert(acc * 10 <= u64::MAX - d) by {
                lemma_div_bound((u64::MAX - d) as int, acc as int);
            };
        }
        acc = acc * 10 + d;
        i += 1;
        proof {
            assert(s.take(i - a).drop_last() =~= s.take(i - a - 1));
            assert(s.take(i - a).last() == c);
        }
    }
    proof {
        assert(s.take(b - a) =~= s);
    }
    Some(acc)
}

/// For positive `q`: `q <= x / 10` exactly when `q * 10 <= x`.
proof fn lemma_div_bound(x: int, q: int)
    requires
        x >= 0,
        q >= 0,
    ensures
        q <= x / 10 <==> q * 10 <= x,
{
    lemma_fundamental_div_mod_converse(x, 10, x / 10, x % 10);
}

/// Extending a nonnegative-valued prefix by further digits cannot shrink the
/// value.
proof fn lemma_dec_val_extend(s: Seq<char>, k: int)
    requires
        0 <= k <= s.len(),
        dec_val(s.take(k)) >= 0,
        forall|j: int| k <= j < s.len() ==> is_digit(s[j]),
    ensures
        dec_val(s) >= dec_val(s.take(k)),
    decreases s.len() - k,
{
    if k == s.len() {
        assert(s.take(k) =~= s);
    } else {
        assert(s.take(k + 1).drop_last() =~= s.take(k));
        assert(is_digit(s[k]));
        assert(dec_val(s.take(k + 1)) == dec_val(s.take(k)) * 10 + digit_val(s[k]));
        lemma_dec_val_extend(s, k + 1);
    }
}

} // verus!
