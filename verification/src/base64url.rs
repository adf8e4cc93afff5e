//! Base64url without padding, over characters whose code points fit a byte.
//!
//! The token format works character-wise: a "byte" here is a `char` with code
//! point below 256. Encoding maps each 3-byte group to 4 alphabet characters
//! (with 2- or 3-character tails for 1 or 2 trailing bytes); decoding is
//! strict, rejecting non-alphabet characters, impossible lengths, and
//! non-zero trailing bits, so exactly the canonical encoding of each byte
//! sequence is accepted.

use vstd::prelude::*;
use vstd::arithmetic::div_mod::lemma_fundamental_div_mod_converse;
use vstd::utf8::char_u32_cast;

use crate::text::char_code;

verus! {

/// Every character's code point fits a byte.
pub open spec fn byte_chars(s: Seq<char>) -> bool {
    forall|i: int| 0 <= i < s.len() ==> char_code(s[i]) < 256
}

/// The alphabet character for a 6-bit value.
pub open spec fn b64_char(v: int) -> char {
    if v < 26 {
        ((65 + v) as u8) as char
    } else if v < 52 {
        ((97 + (v - 26)) as u8) as char
    } else if v < 62 {
        ((48 + (v - 52)) as u8) as char
    } else if v == 62 {
        '-'
    } else {
        '_'
    }
}

/// The 6-bit value of an alphabet character, or -1 for any other character.
pub open spec fn b64_val(c: char) -> int {
    let u = char_code(c);
    if 65 <= u && u <= 90 {
        u - 65
    } else if 97 <= u && u <= 122 {
        u - 97 + 26
    } else if 48 <= u && u <= 57 {
        u - 48 + 52
    } else if c == '-' {
        62
    } else if c == '_' {
        63
    } else {
        -1
    }
}

/// The character for a byte value.
pub open spec fn dchar(v: int) -> char {
    (v as u8) as char
}

pub open spec fn enc1(b0: int) -> Seq<char> {
    seq![b64_char(b0 / 4), b64_char((b0 % 4) * 16)]
}

pub open spec fn enc2(b0: int, b1: int) -> Seq<char> {
    seq![b64_char(b0 / 4), b64_char((b0 % 4) * 16 + b1 / 16), b64_char((b1 % 16) * 4)]
}

pub open spec fn enc3(b0: int, b1: int, b2: int) -> Seq<char> {
    seq![
        b64_char(b0 / 4),
        b64_char((b0 % 4) * 16 + b1 / 16),
        b64_char((b1 % 16) * 4 + b2 / 64),
        b64_char(b2 % 64),
    ]
}

/// Canonical base64url encoding, 3-byte groups from the front.
pub open spec fn b64_encode(s: Seq<char>) -> Seq<char>
    decreases s.len(),
{
    if s.len() == 0 {
        Seq::<char>::empty()
    } else if s.len() == 1 {
        enc1(char_code(s[0]))
    } else if s.len() == 2 {
        enc2(char_code(s[0]), char_code(s[1]))
    } else {
        enc3(char_code(s[0]), char_code(s[1]), char_code(s[2])) + b64_encode(s.skip(3))
    }
}

/// Strict base64url decoding, 4-character groups from the front; `None` for
/// anything but a canonical encoding.
pub open spec fn b64_decode(s: Seq<char>) -> Option<Seq<char>>
    decreases s.len(),
{
    if s.len() == 0 {
        Some(Seq::<char>::empty())
    } else if s.len() == 1 {
        None
    } else if s.len() == 2 {
        let v0 = b64_val(s[0]);
        let v1 = b64_val(s[1]);
        if v0 >= 0 && v1 >= 0 && v1 % 16 == 0 {
            Some(seq![dchar(v0 * 4 + v1 / 16)])
        } else {
            None
        }
    } else if s.len() == 3 {
        let v0 = b64_val(s[0]);
        let v1 = b64_val(s[1]);
        let v2 = b64_val(s[2]);
        if v0 >= 0 && v1 >= 0 && v2 >= 0 && v2 % 4 == 0 {
            Some(seq![dchar(v0 * 4 + v1 / 16), dchar((v1 % 16) * 16 + v2 / 4)])
        } else {
            None
        }
    } else {
        let v0 = b64_val(s[0]);
        let v1 = b64_val(s[1]);
        let v2 = b64_val(s[2]);
        let v3 = b64_val(s[3]);
        match b64_decode(s.skip(4)) {
            None => None,
            Some(rest) => if v0 >= 0 && v1 >= 0 && v2 >= 0 && v3 >= 0 {
                Some(
                    seq![
                        dchar(v0 * 4 + v1 / 16),
                        dchar((v1 % 16) * 16 + v2 / 4),
                        dchar((v2 % 4) * 64 + v3),
                    ] + rest,
                )
            } else {
                None
            },
        }
    }
}

/// The alphabet maps back to the value it encodes.
proof fn lemma_b64_val_of_char(v: int)
    requires
        0 <= v < 64,
    ensures
        b64_val(b64_char(v)) == v,
{
}

/// A byte-valued code point maps back to its character.
proof fn lemma_dchar_code(c: char)
    requires
        char_code(c) < 256,
    ensures
        dchar(char_code(c)) == c,
{
    let u = c as u32;
    assert(dchar(char_code(c)) as u32 == u);
    char_u32_cast(c, u);
    char_u32_cast(dchar(char_code(c)), u);
}

/// Decoding inverts encoding on byte-valued characters: only the canonical
/// spelling of `s` decodes, and it decodes to `s`.
pub proof fn lemma_b64_roundtrip(s: Seq<char>)
    requires
        byte_chars(s),
    ensures
        b64_decode(b64_encode(s)) == Some(s),
    decreases s.len(),
{
    if s.len() == 0 {
        assert(b64_encode(s) =~= Seq::<char>::empty());
        assert(b64_decode(b64_encode(s)) == Some(Seq::<char>::empty()));
        assert(s =~= Seq::<char>::empty());
    } else if s.len() == 1 {
        let b0 = char_code(s[0]);
        let e = b64_encode(s);
        assert(e == enc1(b0));
        assert(e.len() == 2);
        lemma_b64_val_of_char(b0 / 4);
        lemma_b64_val_of_char((b0 % 4) * 16);
        lemma_fundamental_div_mod_converse((b0 % 4) * 16, 16, b0 % 4, 0);
        assert(b64_val(e[1]) % 16 == 0);
        assert(b64_val(e[0]) * 4 + b64_val(e[1]) / 16 == b0);
        lemma_dchar_code(s[0]);
        assert(b64_decode(e) == Some(seq![s[0]]));
        assert(seq![s[0]] =~= s);
    } else if s.len() == 2 {
        let b0 = char_code(s[0]);
        let b1 = char_code(s[1]);
        let e = b64_encode(s);
        assert(e == enc2(b0, b1));
        assert(e.len() == 3);
        lemma_b64_val_of_char(b0 / 4);
        lemma_b64_val_of_char((b0 % 4) * 16 + b1 / 16);
        lemma_b64_val_of_char((b1 % 16) * 4);
        let v0 = b64_val(e[0]);
        let v1 = b64_val(e[1]);
        let v2 = b64_val(e[2]);
        lemma_fundamental_div_mod_converse((b0 % 4) * 16 + b1 / 16, 16, b0 % 4, b1 / 16);
        lemma_fundamental_div_mod_converse((b1 % 16) * 4, 4, b1 % 16, 0);
        assert(v2 % 4 == 0);
        assert(v0 * 4 + v1 / 16 == b0);
        assert((v1 % 16) * 16 + v2 / 4 == b1);
        lemma_dchar_code(s[0]);
        lemma_dchar_code(s[1]);
        assert(b64_decode(e) == Some(seq![s[0], s[1]]));
        assert(seq![s[0], s[1]] =~= s);
    } else {
        let b0 = char_code(s[0]);
        let b1 = char_code(s[1]);
        let b2 = char_code(s[2]);
        let e = b64_encode(s);
        let head = enc3(b0, b1, b2);
        let tail = b64_encode(s.skip(3));
        assert(e == head + tail);
        assert(e.len() >= 4);
        assert(e[0] == head[0] && e[1] == head[1] && e[2] == head[2] && e[3] == head[3]);
        assert(e.skip(4) =~= tail);
        lemma_b64_roundtrip(s.skip(3));
        lemma_b64_val_of_char(b0 / 4);
        lemma_b64_val_of_char((b0 % 4) * 16 + b1 / 16);
        lemma_b64_val_of_char((b1 % 16) * 4 + b2 / 64);
        lemma_b64_val_of_char(b2 % 64);
        let v0 = b64_val(e[0]);
        let v1 = b64_val(e[1]);
        let v2 = b64_val(e[2]);
        let v3 = b64_val(e[3]);
        lemma_fundamental_div_mod_converse((b0 % 4) * 16 + b1 / 16, 16, b0 % 4, b1 / 16);
        lemma_fundamental_div_mod_converse((b1 % 16) * 4 + b2 / 64, 4, b1 % 16, b2 / 64);
        assert(v0 * 4 + v1 / 16 == b0);
        assert((v1 % 16) * 16 + v2 / 4 == b1);
        assert((v2 % 4) * 64 + v3 == b2);
        lemma_dchar_code(s[0]);
        lemma_dchar_code(s[1]);
        lemma_dchar_code(s[2]);
        assert(b64_decode(e) == Some(seq![s[0], s[1], s[2]] + s.skip(3)));
        assert(seq![s[0], s[1], s[2]] + s.skip(3) =~= s);
    }
}

fn b64_char_c(v: u32) -> (r: char)
    requires
        v < 64,
    ensures
        r == b64_char(v as int),
{
    if v < 26 {
        ((65 + v) as u8) as char
    } else if v < 52 {
        ((97 + (v - 26)) as u8) as char
    } else if v < 62 {
        ((48 + (v - 52)) as u8) as char
    } else if v == 62 {
        '-'
    } else {
        '_'
    }
}

fn b64_val_c(c: char) -> (r: Option<u8>)
    ensures
        match r {
            Some(v) => b64_val(c) == v as int,
            None => b64_val(c) == -1,
        },
{
    let u = c as u32;
    if 65 <= u && u <= 90 {
        Some((u - 65) as u8)
    } else if 97 <= u && u <= 122 {
        Some((u - 97 + 26) as u8)
    } else if 48 <= u && u <= 57 {
        Some((u - 48 + 52) as u8)
    } else if c == '-' {
        Some(62)
    } else if c == '_' {
        Some(63)
    } else {
        None
    }
}

/// Append the encoding of the suffix of `v` from `i` to `out`.
fn encode_from(v: &Vec<char>, i: usize, out: &mut Vec<char>)
    requires
        byte_chars(v@),
        i <= v@.len(),
    ensures
        final(out)@ == old(out)@ + b64_encode(v@.skip(i as int)),
    decreases v@.len() - i,
{
    let n = v.len() - i;
    if n == 0 {
        proof {
            assert(out@ =~= out@ + b64_encode(v@.skip(i as int)));
        }
    } else if n == 1 {
        let b0 = v[i] as u32;
        out.push(b64_char_c(b0 / 4));
        out.push(b64_char_c((b0 % 4) * 16));
        proof {
            assert(v@.skip(i as int).len() == 1);
            assert(v@.skip(i as int)[0] == v@[i as int]);
            assert(out@ =~= old(out)@ + b64_encode(v@.skip(i as int)));
        }
    } else if n == 2 {
        let b0 = v[i] as u32;
        let b1 = v[i + 1] as u32;
        out.push(b64_char_c(b0 / 4));
        out.push(b64_char_c((b0 % 4) * 16 + b1 / 16));
        out.push(b64_char_c((b1 % 16) * 4));
        proof {
            assert(v@.skip(i as int).len() == 2);
            assert(v@.skip(i as int)[0] == v@[i as int]);
            assert(v@.skip(i as int)[1] == v@[i + 1]);
            assert(out@ =~= old(out)@ + b64_encode(v@.skip(i as int)));
        }
    } else {
        let b0 = v[i] as u32;
        let b1 = v[i + 1] as u32;
        let b2 = v[i + 2] as u32;
        out.push(b64_char_c(b0 / 4));
        out.push(b64_char_c((b0 % 4) * 16 + b1 / 16));
        out.push(b64_char_c((b1 % 16) * 4 + b2 / 64));
        out.push(b64_char_c(b2 % 64));
        proof {
            assert(v@.skip(i as int).len() >= 3);
            assert(v@.skip(i as int)[0] == v@[i as int]);
            assert(v@.skip(i as int)[1] == v@[i + 1]);
            assert(v@.skip(i as int)[2] == v@[i + 2]);
        }
        encode_from(v, i + 3, out);
        proof {
            assert(v@.skip(i as int).skip(3) =~= v@.skip(i + 3));
            assert(out@ =~= old(out)@ + b64_encode(v@.skip(i as int)));
        }
    }
}

/// Encode a byte-valued character sequence.
pub fn b64_encode_chars(v: &Vec<char>) -> (r: Vec<char>)
    requires
        byte_chars(v@),
    ensures
        r@ == b64_encode(v@),
{
    let mut out: Vec<char> = Vec::new();
    encode_from(v, 0, &mut out);
    proof {
        assert(v@.skip(0) =~= v@);
        assert(out@ =~= b64_encode(v@));
    }
    out
}

/// Append the decoding of the suffix of `v` from `i` to `out`; false exactly
/// when that suffix is not a canonical encoding.
fn decode_from(v: &Vec<char>, i: usize, out: &mut Vec<char>) -> (ok: bool)
    requires
        i <= v@.len(),
    ensures
        ok ==> (b64_decode(v@.skip(i as int)) matches Some(rest) && final(out)@ == old(out)@
            + rest),
        !ok ==> b64_decode(v@.skip(i as int)) is None,
    decreases v@.len() - i,
{
    let ghost suf = v@.skip(i as int);
    let n = v.len() - i;
    if n == 0 {
        proof {
            assert(out@ =~= out@ + Seq::<char>::empty());
        }
        true
    } else if n == 1 {
        false
    } else if n == 2 {
        proof {
            assert(suf[0] == v@[i as int] && suf[1] == v@[i + 1]);
        }
        let v0 = match b64_val_c(v[i]) {
            Some(x) => x,
            None => {
                return false;
            },
        };
        let v1 = match b64_val_c(v[i + 1]) {
            Some(x) => x,
            None => {
                return false;
            },
        };
        if (v1 as u32) % 16 != 0 {
            return false;
        }
        out.push((((v0 as u32) * 4 + (v1 as u32) / 16) as u8) as char);
        proof {
            assert(out@ =~= old(out)@ + seq![dchar(v0 * 4 + v1 / 16)]);
        }
        true
    } else if n == 3 {
        proof {
            assert(suf[0] == v@[i as int] && suf[1] == v@[i + 1] && suf[2] == v@[i + 2]);
        }
        let v0 = match b64_val_c(v[i]) {
            Some(x) => x,
            None => {
                return false;
            },
        };
        let v1 = match b64_val_c(v[i + 1]) {
            Some(x) => x,
            None => {
                return false;
            },
        };
        let v2 = match b64_val_c(v[i + 2]) {
            Some(x) => x,
            None => {
                return false;
            },
        };
        if (v2 as u32) % 4 != 0 {
            return false;
        }
        out.push((((v0 as u32) * 4 + (v1 as u32) / 16) as u8) as char);
        out.push(((((v1 as u32) % 16) * 16 + (v2 as u32) / 4) as u8) as char);
        proof {
            assert(out@ =~= old(out)@ + seq![
                dchar(v0 * 4 + v1 / 16),
                dchar((v1 % 16) * 16 + v2 / 4),
            ]);
        }
        true
    } else {
        proof {
            assert(suf[0] == v@[i as int] && suf[1] == v@[i + 1] && suf[2] == v@[i + 2] && suf[3]
                == v@[i + 3]);
            assert(suf.skip(4) =~= v@.skip(i + 4));
        }
        let v0 = match b64_val_c(v[i]) {
            Some(x) => x,
            None => {
                return false;
            },
        };
        let v1 = match b64_val_c(v[i + 1]) {
            Some(x) => x,
            None => {
                return false;
            },
        };
        let v2 = match b64_val_c(v[i + 2]) {
            Some(x) => x,
            None => {
                return false;
            },
        };
        let v3 = match b64_val_c(v[i + 3]) {
            Some(x) => x,
            None => {
                return false;
            },
        };
        let ghost mid = out@;
        out.push((((v0 as u32) * 4 + (v1 as u32) / 16) as u8) as char);
        out.push(((((v1 as u32) % 16) * 16 + (v2 as u32) / 4) as u8) as char);
        out.push(((((v2 as u32) % 4) * 64 + (v3 as u32)) as u8) as char);
        let ok = decode_from(v, i + 4, out);
        if !ok {
            return false;
        }
        proof {
            let bytes = seq![
                dchar(v0 * 4 + v1 / 16),
                dchar((v1 % 16) * 16 + v2 / 4),
                dchar((v2 % 4) * 64 + v3),
            ];
            let rest = b64_decode(v@.skip(i + 4)).unwrap();
            assert(out@ =~= old(out)@ + (bytes + rest));
        }
        true
    }
}

/// Decode a canonical base64url character sequence; `None` for any other
/// input.
pub fn b64_decode_chars(v: &Vec<char>) -> (r: Option<Vec<char>>)
    ensures
        match r {
            Some(out) => b64_decode(v@) == Some(out@),
            None => b64_decode(v@) is None,
        },
{
    let mut out: Vec<char> = Vec::new();
    let ok = decode_from(v, 0, &mut out);
    proof {
        assert(v@.skip(0) =~= v@);
    }
    if ok {
        Some(out)
    } else {
        None
    }
}

} // verus!
