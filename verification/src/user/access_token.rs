//! Access token codec: a signed, time-bounded token carrying a subject.
//!
//! A token is `base64url(header) . base64url(payload) . tag` where the header
//! is the fixed text naming the HS256 algorithm, the payload is the canonical
//! `{"sub":"...","exp":N}` text, and the tag is the HMAC-SHA-256 signature of
//! everything before the second dot, computed by an outside signer. Framing,
//! payload parsing, and the expiry decision are verified here; only the
//! signature itself is trusted.
//!
//! Decoding deliberately collapses every failure but expiry into one opaque
//! `Tempered` bucket: a caller learns that a token was rejected, not which
//! check rejected it. `Expired` is reported only when the signature verified
//! and the expiry lies strictly in the past; a token is still honored at the
//! instant of its expiry.

use vstd::prelude::*;

use crate::base64url::{b64_char, b64_decode, b64_encode, b64_encode_chars, b64_val, byte_chars, b64_decode_chars, lemma_b64_roundtrip};
use crate::decimal::{is_digit, lemma_dec_digits_are_digits};
use crate::payload::{parse_payload, payload_chars, token_safe, lemma_payload_roundtrip, parse_payload_chars, token_safe_chars, write_payload, push_all};
use crate::text::{char_code, chars_eq, chars_string, find_from, find_in_chars, lemma_find_from_found, str_chars, subvec};
use crate::user::id::Id;

verus! {

/// Lifetime of a token issued without an explicit expiry.
pub const ACCESS_TOKEN_TTL_SECS: u64 = 12 * 3600;

/// The fixed header text: `{"alg":"HS256","typ":"JWT"}`.
pub open spec fn header_chars() -> Seq<char> {
    seq![
        '{', '"', 'a', 'l', 'g', '"', ':', '"', 'H', 'S', '2', '5', '6', '"', ',', '"', 't', 'y',
        'p', '"', ':', '"', 'J', 'W', 'T', '"', '}',
    ]
}

fn make_header() -> (r: Vec<char>)
    ensures
        r@ == header_chars(),
{
    let mut out: Vec<char> = Vec::new();
    out.push('{');
    out.push('"');
    out.push('a');
    out.push('l');
    out.push('g');
    out.push('"');
    out.push(':');
    out.push('"');
    out.push('H');
    out.push('S');
    out.push('2');
    out.push('5');
    out.push('6');
    out.push('"');
    out.push(',');
    out.push('"');
    out.push('t');
    out.push('y');
    out.push('p');
    out.push('"');
    out.push(':');
    out.push('"');
    out.push('J');
    out.push('W');
    out.push('T');
    out.push('"');
    out.push('}');
    proof {
        assert(out@ =~= header_chars());
    }
    out
}

/// What the HS256 signer returns for a message and a secret: the
/// base64url-encoded HMAC-SHA-256 tag, a function of the two arguments alone.
pub uninterp spec fn hs256_tag(message: Seq<char>, secret: Seq<char>) -> Seq<char>;

/// Relies on jsonwebtoken::crypto::sign with Algorithm::HS256: it computes the
/// HMAC-SHA-256 of the message bytes under the secret and returns it
/// base64url-encoded, deterministically in message and secret. For a key made
/// by EncodingKey::from_secret the signer cannot fail — HMAC accepts keys of
/// any length and signing is infallible — so the call always returns a tag.
#[verifier::external_body]
fn sign_hs256(message: &str, secret: &str) -> (r: Option<String>)
    ensures
        r is Some,
        r matches Some(t) ==> t@ == hs256_tag(message@, secret@),
        r matches Some(t) ==> forall|i: int|
            0 <= i < t@.len() ==> b64_val(#[trigger] t@[i]) >= 0,
{
    let key = jsonwebtoken::EncodingKey::from_secret(secret.as_bytes());
    jsonwebtoken::crypto::sign(message.as_bytes(), &key, jsonwebtoken::Algorithm::HS256).ok()
}

/// Relies on chrono::Utc::now: the current Unix time in seconds. Nothing is
/// assumed of the clock reading.
#[verifier::external_body]
fn now_unix() -> (r: i64) {
    chrono::Utc::now().timestamp()
}

/// The signed region of a token: encoded header, dot, encoded payload.
pub open spec fn message_chars(sub: Seq<char>, exp: u64) -> Seq<char> {
    b64_encode(header_chars()) + seq!['.'] + b64_encode(payload_chars(sub, exp))
}

/// The full canonical token for a subject, an expiry, and a secret.
pub open spec fn token_chars(sub: Seq<char>, exp: u64, secret: Seq<char>) -> Seq<char> {
    message_chars(sub, exp) + seq!['.'] + hs256_tag(message_chars(sub, exp), secret)
}

/// The decoded payload of an access token; constructed only by `decode`.
#[derive(Debug)]
pub struct Claims {
    sub: String,
    exp: u64,
}

impl Claims {
    pub closed spec fn spec_sub(&self) -> Seq<char> {
        self.sub@
    }

    pub closed spec fn spec_exp(&self) -> u64 {
        self.exp
    }

    pub fn sub(&self) -> (r: &str)
        ensures
            r@ == self.spec_sub(),
    {
        self.sub.as_str()
    }

    pub fn exp(&self) -> (r: u64)
        ensures
            r == self.spec_exp(),
    {
        self.exp
    }
}

#[derive(Debug, PartialEq, Eq)]
pub enum DecodeError {
    Expired,
    Tempered,
}

/// Split a token at its first two dots: header, payload, and everything
/// after the second dot as the signature.
pub open spec fn split3(t: Seq<char>) -> Option<(Seq<char>, Seq<char>, Seq<char>)> {
    match find_from(t, 0, '.') {
        None => None,
        Some(d1) => match find_from(t, d1 + 1, '.') {
            None => None,
            Some(d2) => Some(
                (t.subrange(0, d1), t.subrange(d1 + 1, d2), t.subrange(d2 + 1, t.len() as int)),
            ),
        },
    }
}

/// The token text splits into exactly three dot-separated parts: two dots
/// frame a non-empty header part and a non-empty payload part, and the
/// remainder — the signature — holds no further dot.
pub open spec fn three_parts(t: Seq<char>) -> bool {
    match split3(t) {
        None => false,
        Some(parts) => parts.0.len() > 0 && parts.1.len() > 0 && (forall|i: int|
            0 <= i < parts.2.len() ==> parts.2[i] != '.'),
    }
}

/// The claims a token yields under a secret: `Some` exactly when the header
/// is the canonical one, the signature is the tag of the signed region, and
/// the payload is a canonical encoding of a well-formed payload text.
pub open spec fn spec_claims(t: Seq<char>, secret: Seq<char>) -> Option<(Seq<char>, u64)> {
    match split3(t) {
        None => None,
        Some(parts) => if parts.0 == b64_encode(header_chars()) && parts.2 == hs256_tag(
            parts.0 + seq!['.'] + parts.1,
            secret,
        ) {
            match b64_decode(parts.1) {
                None => None,
                Some(pl) => parse_payload(pl),
            }
        } else {
            None
        },
    }
}

/// What decoding a token yields at clock reading `now`: `Tempered` for
/// anything that does not carry valid claims, `Expired` for valid claims
/// whose expiry is in the past, and the claims otherwise.
pub open spec fn decode_outcome(t: Seq<char>, secret: Seq<char>, now: u64) -> Result<
    (Seq<char>, u64),
    DecodeError,
> {
    match spec_claims(t, secret) {
        None => Err(DecodeError::Tempered),
        Some(c) => if c.1 < now {
            Err(DecodeError::Expired)
        } else {
            Ok(c)
        },
    }
}

/// The view of a decode result.
pub open spec fn claims_view(r: Result<Claims, DecodeError>) -> Result<
    (Seq<char>, u64),
    DecodeError,
> {
    match r {
        Ok(c) => Ok((c.spec_sub(), c.spec_exp())),
        Err(e) => Err(e),
    }
}

/// What decoding guarantees relative to a clock reading: the result is
/// exactly what the token yields under the secret at that reading.
pub open spec fn decode_post(
    r: Result<(Seq<char>, u64), DecodeError>,
    t: Seq<char>,
    secret: Seq<char>,
    now: u64,
) -> bool {
    r == decode_outcome(t, secret, now)
}

/// Every character of the fixed header fits a byte.
proof fn lemma_header_bytes()
    ensures
        byte_chars(header_chars()),
{
    let h = header_chars();
    assert forall|i: int| 0 <= i < h.len() implies char_code(h[i]) < 256 by {
        if i < 14 {
            assert(char_code(h[i]) < 256);
        } else {
            assert(char_code(h[i]) < 256);
        }
    }
}

/// Every character of a canonical payload of a safe subject fits a byte.
proof fn lemma_payload_bytes(sub: Seq<char>, exp: u64)
    requires
        token_safe(sub),
    ensures
        byte_chars(payload_chars(sub, exp)),
{
    let p = payload_chars(sub, exp);
    let d = crate::decimal::dec_digits(exp as nat);
    lemma_dec_digits_are_digits(exp as nat);
    let q = 8 + sub.len() as int;
    assert forall|i: int| 0 <= i < p.len() implies char_code(p[i]) < 256 by {
        if i < 8 {
            assert(char_code(p[i]) < 256);
        } else if i < q {
            assert(p[i] == sub[i - 8]);
            assert(crate::payload::safe_char(sub[i - 8]));
        } else if i < q + 8 {
            assert(char_code(p[i]) < 256);
        } else if i < p.len() - 1 {
            assert(p[i] == d[i - (q + 8)]);
            assert(is_digit(d[i - (q + 8)]));
        } else {
            assert(p[i] == '}');
        }
    }
}

/// No character of a base64url encoding is a dot.
proof fn lemma_b64_encode_no_dot(s: Seq<char>)
    requires
        byte_chars(s),
    ensures
        forall|i: int| 0 <= i < b64_encode(s).len() ==> b64_encode(s)[i] != '.',
    decreases s.len(),
{
    assert forall|v: int| 0 <= v < 64 implies b64_char(v) != '.' by {
        assert(b64_char(v) as u32 != 46);
    }
    if s.len() == 0 {
    } else if s.len() == 1 {
        assert(char_code(s[0]) < 256);
    } else if s.len() == 2 {
        assert(char_code(s[0]) < 256 && char_code(s[1]) < 256);
    } else {
        lemma_b64_encode_no_dot(s.skip(3));
        let head = crate::base64url::enc3(char_code(s[0]), char_code(s[1]), char_code(s[2]));
        let e = b64_encode(s);
        assert(e == head + b64_encode(s.skip(3)));
        assert forall|i: int| 0 <= i < e.len() implies e[i] != '.' by {
            if i < 4 {
                assert(e[i] == head[i]);
            } else {
                assert(e[i] == b64_encode(s.skip(3))[i - 4]);
            }
        }
    }
}

/// Encode a subject and an expiry into a signed token. This succeeds for
/// every token-safe subject; `None` exactly when the subject holds a
/// character the payload cannot carry.
pub fn encode_at(sub: &Id, exp: u64, secret: &str) -> (r: Option<String>)
    ensures
        r matches Some(t) ==> token_safe(sub@) && t@ == token_chars(sub@, exp, secret@),
        r is Some <==> token_safe(sub@),
        r matches Some(t) ==> three_parts(t@),
{
    let sub_chars = str_chars(sub.value());
    if !token_safe_chars(&sub_chars) {
        return None;
    }
    let header = make_header();
    proof {
        lemma_header_bytes();
    }
    let header_b64 = b64_encode_chars(&header);
    let payload = write_payload(&sub_chars, exp);
    proof {
        lemma_payload_bytes(sub_chars@, exp);
    }
    let payload_b64 = b64_encode_chars(&payload);
    let mut msg: Vec<char> = Vec::new();
    push_all(&mut msg, &header_b64);
    msg.push('.');
    push_all(&mut msg, &payload_b64);
    proof {
        assert(msg@ =~= message_chars(sub@, exp, ));
    }
    let msg_str = chars_string(&msg);
    let tag = sign_hs256(msg_str.as_str(), secret).unwrap();
    let tag_chars = str_chars(tag.as_str());
    let mut tok = msg;
    tok.push('.');
    push_all(&mut tok, &tag_chars);
    proof {
        assert(tok@ =~= token_chars(sub@, exp, secret@));
        lemma_token_split3(sub@, exp, secret@);
        assert(forall|i: int|
            0 <= i < tag@.len() ==> #[trigger] hs256_tag(msg@, secret@)[i] != '.') by {
            assert(b64_val('.') == -1);
        }
    }
    Some(chars_string(&tok))
}

/// Encode with the default lifetime when no expiry is given: the token then
/// expires `ACCESS_TOKEN_TTL_SECS` after a reading of the clock. This
/// succeeds for every token-safe subject.
pub fn encode(sub: &Id, exp: Option<u64>, secret: &str) -> (r: Option<String>)
    ensures
        r matches Some(t) ==> token_safe(sub@) && (match exp {
            Some(e) => t@ == token_chars(sub@, e, secret@),
            None => exists|n: u64|
                n + ACCESS_TOKEN_TTL_SECS <= u64::MAX && t@ == #[trigger] token_chars(
                    sub@,
                    (n + ACCESS_TOKEN_TTL_SECS) as u64,
                    secret@,
                ),
        }),
        r is Some <==> token_safe(sub@),
        r matches Some(t) ==> three_parts(t@),
{
    match exp {
        Some(e) => encode_at(sub, e, secret),
        None => {
            let n = now_unix();
            let now: u64 = if n < 0 {
                0
            } else {
                n as u64
            };
            let r = encode_at(sub, now + ACCESS_TOKEN_TTL_SECS, secret);
            proof {
                if r is Some {
                    assert(now + ACCESS_TOKEN_TTL_SECS <= u64::MAX && r->0@ == token_chars(
                        sub@,
                        (now + ACCESS_TOKEN_TTL_SECS) as u64,
                        secret@,
                    ));
                }
            }
            r
        },
    }
}

/// Decode a token against a secret at clock reading `now`.
pub fn decode_at(token: &str, secret: &str, now: u64) -> (r: Result<Claims, DecodeError>)
    ensures
        decode_post(claims_view(r), token@, secret@, now),
{
    let t = str_chars(token);
    let tlen = t.len();
    let d1 = match find_in_chars(&t, 0, '.') {
        Some(k) => k,
        None => {
            return Err(DecodeError::Tempered);
        },
    };
    let d2 = match find_in_chars(&t, d1 + 1, '.') {
        Some(k) => k,
        None => {
            return Err(DecodeError::Tempered);
        },
    };
    let h = subvec(&t, 0, d1);
    let p = subvec(&t, d1 + 1, d2);
    let sig = subvec(&t, d2 + 1, tlen);
    proof {
        assert(split3(t@) matches Some(parts) && parts.0 == h@ && parts.1 == p@ && parts.2
            == sig@);
    }
    let header = make_header();
    proof {
        lemma_header_bytes();
    }
    let expected_h = b64_encode_chars(&header);
    if !chars_eq(&h, &expected_h) {
        return Err(DecodeError::Tempered);
    }
    let mut msg: Vec<char> = Vec::new();
    push_all(&mut msg, &h);
    msg.push('.');
    push_all(&mut msg, &p);
    proof {
        assert(msg@ =~= h@ + seq!['.'] + p@);
    }
    let msg_str = chars_string(&msg);
    let tag = sign_hs256(msg_str.as_str(), secret).unwrap();
    let tag_chars = str_chars(tag.as_str());
    proof {
        assert(tag_chars@ == hs256_tag(h@ + seq!['.'] + p@, secret@));
    }
    if !chars_eq(&sig, &tag_chars) {
        return Err(DecodeError::Tempered);
    }
    let pl = match b64_decode_chars(&p) {
        Some(x) => x,
        None => {
            return Err(DecodeError::Tempered);
        },
    };
    let parsed = match parse_payload_chars(&pl) {
        Some(x) => x,
        None => {
            return Err(DecodeError::Tempered);
        },
    };
    let exp = parsed.1;
    proof {
        assert(spec_claims(token@, secret@) == Some((parsed.0@, parsed.1)));
    }
    if exp < now {
        return Err(DecodeError::Expired);
    }
    let sub = chars_string(&parsed.0);
    Ok(Claims { sub, exp })
}

/// Decode a token against a secret at the current time.
pub fn decode(token: &str, secret: &str) -> (r: Result<Claims, DecodeError>)
    ensures
        exists|now: u64| decode_post(claims_view(r), token@, secret@, now),
{
    let n = now_unix();
    let now: u64 = if n < 0 {
        0
    } else {
        n as u64
    };
    let r = decode_at(token, secret, now);
    proof {
        assert(decode_post(claims_view(r), token@, secret@, now));
    }
    r
}

/// A canonical token splits at its first two dots into exactly its encoded
/// header, its encoded payload, and its tag: the two encoded parts hold no
/// dot, so the dots that frame them are the first two.
pub proof fn lemma_token_split3(sub: Seq<char>, exp: u64, secret: Seq<char>)
    requires
        token_safe(sub),
    ensures
        split3(token_chars(sub, exp, secret)) == Some(
            (
                b64_encode(header_chars()),
                b64_encode(payload_chars(sub, exp)),
                hs256_tag(message_chars(sub, exp), secret),
            ),
        ),
        b64_encode(header_chars()).len() > 0,
        b64_encode(payload_chars(sub, exp)).len() > 0,
{
    let hb = b64_encode(header_chars());
    let pb = b64_encode(payload_chars(sub, exp));
    let m = message_chars(sub, exp);
    let tag = hs256_tag(m, secret);
    let t = token_chars(sub, exp, secret);
    lemma_header_bytes();
    lemma_payload_bytes(sub, exp);
    lemma_b64_encode_no_dot(header_chars());
    lemma_b64_encode_no_dot(payload_chars(sub, exp));
    assert(header_chars().len() == 27);
    assert(payload_chars(sub, exp).len() >= 17);
    assert(hb.len() >= 4);
    assert(pb.len() >= 4);
    let d1 = hb.len() as int;
    let d2 = m.len() as int;
    assert(t[d1] == '.');
    assert(forall|j: int| 0 <= j < d1 ==> t[j] == hb[j]);
    assert(forall|j: int| 0 <= j < d1 ==> t[j] != '.');
    lemma_find_from_found(t, 0, d1, '.');
    assert(t[d2] == '.');
    assert(forall|j: int| d1 + 1 <= j < d2 ==> t[j] == pb[j - (d1 + 1)]);
    assert(forall|j: int| d1 + 1 <= j < d2 ==> t[j] != '.');
    lemma_find_from_found(t, d1 + 1, d2, '.');
    assert(t.subrange(0, d1) =~= hb);
    assert(t.subrange(d1 + 1, d2) =~= pb);
    assert(t.subrange(d2 + 1, t.len() as int) =~= tag);
}

/// Law: the token encoded for a subject, an expiry, and a secret decodes
/// under that secret to exactly that subject and expiry while the clock does
/// not read past the expiry, and to `Expired` once it does.
pub proof fn lemma_token_roundtrip(sub: Seq<char>, exp: u64, secret: Seq<char>, now: u64)
    requires
        token_safe(sub),
    ensures
        decode_outcome(token_chars(sub, exp, secret), secret, now) == (if exp < now {
            Err::<(Seq<char>, u64), DecodeError>(DecodeError::Expired)
        } else {
            Ok::<(Seq<char>, u64), DecodeError>((sub, exp))
        }),
{
    let m = message_chars(sub, exp);
    let t = token_chars(sub, exp, secret);
    lemma_token_split3(sub, exp, secret);
    assert(b64_encode(header_chars()) + seq!['.'] + b64_encode(payload_chars(sub, exp)) =~= m);
    lemma_header_bytes();
    lemma_payload_bytes(sub, exp);
    lemma_b64_roundtrip(payload_chars(sub, exp));
    lemma_payload_roundtrip(sub, exp);
    assert(spec_claims(t, secret) == Some((sub, exp)));
}

} // verus!
