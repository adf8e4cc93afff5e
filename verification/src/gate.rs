//! The authentication gate: the per-request checkpoint that turns a bearer
//! header into a trusted principal, or a rejection.
//!
//! The five steps run strictly in order and stop at the first failure:
//! extract the `Authorization` header, parse the `Bearer ` form, decode the
//! token, resolve the subject against the user store, attach the principal.
//! The store call itself is the caller's: its answer arrives here as a
//! `PrincipalLookup` value, and the decision taken on it is verified.
//!
//! A missing header, a malformed header, a tampered token, and an unknown
//! subject are deliberately indistinguishable (`AuthenticationFailed`): the
//! caller learns nothing about which check failed, and an unknown subject is
//! not confirmed as such. Only an expired token (`TokenExpired`) and a store
//! failure (`InternalError`) are reported apart.

use vstd::prelude::*;

use crate::text::{chars_string, str_chars, subvec};
use crate::user::access_token;
use crate::user::access_token::{decode_outcome, DecodeError};
use crate::user::id::Id;
use crate::user::User;

verus! {

#[derive(Debug, PartialEq, Eq, Structural, Clone, Copy)]
pub enum GateRejection {
    AuthenticationFailed,
    TokenExpired,
    InternalError,
}

/// The store's answer when a decoded subject is resolved.
pub enum PrincipalLookup {
    Found(User),
    NotFound,
    Unavailable,
}

pub open spec fn bearer_prefix() -> Seq<char> {
    seq!['B', 'e', 'a', 'r', 'e', 'r', ' ']
}

/// The token carried by an `Authorization` header value, if the value has
/// the `Bearer ` form.
pub open spec fn bearer_token_of(header: Seq<char>) -> Option<Seq<char>> {
    if header.len() >= 7 && header.subrange(0, 7) == bearer_prefix() {
        Some(header.subrange(7, header.len() as int))
    } else {
        None
    }
}

/// What the token checks yield for a header at clock reading `now`: the
/// decoded subject, or the rejection of the first failing check.
pub open spec fn gate_token_outcome(
    header: Option<Seq<char>>,
    secret: Seq<char>,
    now: u64,
) -> Result<Seq<char>, GateRejection> {
    match header {
        None => Err(GateRejection::AuthenticationFailed),
        Some(h) => match bearer_token_of(h) {
            None => Err(GateRejection::AuthenticationFailed),
            Some(tok) => match decode_outcome(tok, secret, now) {
                Err(DecodeError::Expired) => Err(GateRejection::TokenExpired),
                Err(DecodeError::Tempered) => Err(GateRejection::AuthenticationFailed),
                Ok(c) => Ok(c.0),
            },
        },
    }
}

pub open spec fn header_view(header: Option<&str>) -> Option<Seq<char>> {
    match header {
        Some(h) => Some(h@),
        None => None,
    }
}

/// What the token checks guarantee relative to a clock reading: the result
/// is exactly the checkpoint's outcome for the header at that reading.
pub open spec fn gate_post(
    r: Result<Seq<char>, GateRejection>,
    header: Option<Seq<char>>,
    secret: Seq<char>,
    now: u64,
) -> bool {
    r == gate_token_outcome(header, secret, now)
}

pub open spec fn id_view(r: Result<Id, GateRejection>) -> Result<Seq<char>, GateRejection> {
    match r {
        Ok(id) => Ok(id@),
        Err(e) => Err(e),
    }
}

/// Strip the `Bearer ` form from a header value.
fn parse_bearer(header: &str) -> (r: Option<String>)
    ensures
        match r {
            Some(tok) => bearer_token_of(header@) == Some(tok@),
            None => bearer_token_of(header@) is None,
        },
{
    let chars = str_chars(header);
    let len = chars.len();
    if len < 7 {
        return None;
    }
    if !(chars[0] == 'B' && chars[1] == 'e' && chars[2] == 'a' && chars[3] == 'r' && chars[4]
        == 'e' && chars[5] == 'r' && chars[6] == ' ') {
        proof {
            assert(header@.subrange(0, 7) != bearer_prefix());
        }
        return None;
    }
    proof {
        assert(header@.subrange(0, 7) =~= bearer_prefix());
    }
    let tok = subvec(&chars, 7, len);
    Some(chars_string(&tok))
}

/// Checkpoint steps one to three — header extraction, bearer parsing,
/// token decoding — against the clock reading `now`.
pub fn authorize_header_at(header: Option<&str>, secret: &str, now: u64) -> (r: Result<
    Id,
    GateRejection,
>)
    ensures
        gate_post(id_view(r), header_view(header), secret@, now),
{
    let h = match header {
        Some(h) => h,
        None => {
            return Err(GateRejection::AuthenticationFailed);
        },
    };
    let tok = match parse_bearer(h) {
        Some(t) => t,
        None => {
            return Err(GateRejection::AuthenticationFailed);
        },
    };
    match access_token::decode_at(tok.as_str(), secret, now) {
        Ok(claims) => Ok(Id::restore(claims.sub().to_owned())),
        Err(DecodeError::Expired) => Err(GateRejection::TokenExpired),
        Err(DecodeError::Tempered) => Err(GateRejection::AuthenticationFailed),
    }
}

/// Checkpoint steps one to three at the current time.
pub fn authorize_header(header: Option<&str>, secret: &str) -> (r: Result<Id, GateRejection>)
    ensures
        exists|now: u64| gate_post(id_view(r), header_view(header), secret@, now),
{
    let h = match header {
        Some(h) => h,
        None => {
            let r = Err::<Id, GateRejection>(GateRejection::AuthenticationFailed);
            proof {
                assert(gate_post(id_view(r), header_view(header), secret@, 0));
            }
            return r;
        },
    };
    let tok = match parse_bearer(h) {
        Some(t) => t,
        None => {
            let r = Err::<Id, GateRejection>(GateRejection::AuthenticationFailed);
            proof {
                assert(gate_post(id_view(r), header_view(header), secret@, 0));
            }
            return r;
        },
    };
    let d = access_token::decode(tok.as_str(), secret);
    let ghost now = choose|now: u64|
        access_token::decode_post(access_token::claims_view(d), tok@, secret@, now);
    let r = match d {
        Ok(claims) => Ok(Id::restore(claims.sub().to_owned())),
        Err(DecodeError::Expired) => Err(GateRejection::TokenExpired),
        Err(DecodeError::Tempered) => Err(GateRejection::AuthenticationFailed),
    };
    proof {
        assert(gate_post(id_view(r), header_view(header), secret@, now));
    }
    r
}

/// Checkpoint steps four and five: the decision on the store's answer. A
/// found user becomes the attached principal; an unknown subject is rejected
/// exactly like a bad token; a store failure is reported as an internal
/// error, distinct from an authentication failure.
pub fn resolve_principal(lookup: PrincipalLookup) -> (r: Result<User, GateRejection>)
    ensures
        match lookup {
            PrincipalLookup::Found(u) => r == Ok::<User, GateRejection>(u),
            PrincipalLookup::NotFound => r == Err::<User, GateRejection>(
                GateRejection::AuthenticationFailed,
            ),
            PrincipalLookup::Unavailable => r == Err::<User, GateRejection>(
                GateRejection::InternalError,
            ),
        },
{
    match lookup {
        PrincipalLookup::Found(u) => Ok(u),
        PrincipalLookup::NotFound => Err(GateRejection::AuthenticationFailed),
        PrincipalLookup::Unavailable => Err(GateRejection::InternalError),
    }
}

/// Law: a header carrying a freshly issued token is accepted with exactly
/// the subject the token was issued for while the clock does not read past
/// the expiry, and rejected as expired once it does.
pub proof fn lemma_gate_accepts_fresh_token(sub: Seq<char>, exp: u64, secret: Seq<char>, now: u64)
    requires
        crate::payload::token_safe(sub),
    ensures
        gate_token_outcome(
            Some(bearer_prefix() + access_token::token_chars(sub, exp, secret)),
            secret,
            now,
        ) == (if exp < now {
            Err::<Seq<char>, GateRejection>(GateRejection::TokenExpired)
        } else {
            Ok::<Seq<char>, GateRejection>(sub)
        }),
{
    let t = access_token::token_chars(sub, exp, secret);
    let h = bearer_prefix() + t;
    assert(h.subrange(0, 7) =~= bearer_prefix());
    assert(h.subrange(7, h.len() as int) =~= t);
    access_token::lemma_token_roundtrip(sub, exp, secret, now);
}

/// The HTTP status a rejection is reported with: 401 for both authentication
/// failures and expiry, 500 for a store failure.
pub fn rejection_status(r: &GateRejection) -> (s: u16)
    ensures
        s == (match r {
            GateRejection::AuthenticationFailed => 401u16,
            GateRejection::TokenExpired => 401u16,
            GateRejection::InternalError => 500u16,
        }),
{
    match r {
        GateRejection::AuthenticationFailed => 401,
        GateRejection::TokenExpired => 401,
        GateRejection::InternalError => 500,
    }
}

} // verus!
