//! Task deadline: an instant parsed from an RFC 3339 timestamp.
//!
//! The instant is stored as Unix time in milliseconds, UTC; the original text
//! is not kept. What a timestamp text denotes is the outside parser's
//! business, named here by `rfc3339_millis`.

use vstd::prelude::*;

verus! {

/// What the RFC 3339 parser yields for a text: the denoted instant as Unix
/// milliseconds, or `None` for text that is not a valid RFC 3339 timestamp
/// (a mandatory timezone offset is part of the format). A function of the
/// text alone.
pub uninterp spec fn rfc3339_millis(s: Seq<char>) -> Option<i64>;

/// Relies on chrono::DateTime::parse_from_rfc3339 and timestamp_millis: a
/// valid RFC 3339 timestamp parses to its instant; four-digit years keep the
/// millisecond count well inside i64.
#[verifier::external_body]
fn parse_rfc3339(s: &str) -> (r: Option<i64>)
    ensures
        r == rfc3339_millis(s@),
{
    match chrono::DateTime::parse_from_rfc3339(s) {
        Ok(dt) => Some(dt.timestamp_millis()),
        Err(_) => None,
    }
}

#[derive(Debug, PartialEq, Eq, Structural, Clone, Copy)]
pub struct Deadline {
    millis: i64,
}

#[derive(Debug, PartialEq, Eq)]
pub enum DeadlineNewError {
    WrongFormat,
}

impl View for Deadline {
    type V = int;

    closed spec fn view(&self) -> int {
        self.millis as int
    }
}

impl Deadline {
    /// Parse an RFC 3339 timestamp; anything else is `WrongFormat`.
    pub fn new(value: String) -> (r: Result<Deadline, DeadlineNewError>)
        ensures
            match r {
                Ok(d) => rfc3339_millis(value@) matches Some(m) && d@ == m as int,
                Err(e) => rfc3339_millis(value@) is None && e == DeadlineNewError::WrongFormat,
            },
    {
        match parse_rfc3339(value.as_str()) {
            Some(m) => Ok(Deadline { millis: m }),
            None => Err(DeadlineNewError::WrongFormat),
        }
    }

    /// Rebuild a deadline from a stored instant.
    pub fn restore(millis: i64) -> (r: Deadline)
        ensures
            r@ == millis as int,
    {
        Deadline { millis }
    }

    /// The instant, as Unix time in milliseconds.
    pub fn value(&self) -> (r: i64)
        ensures
            r as int == self@,
    {
        self.millis
    }
}

} // verus!
