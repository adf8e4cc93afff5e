//! Email address: non-empty, at most `MAX_LEN` characters, and shaped as
//! `local@domain` where the local part is a run of permitted characters and
//! the domain is a sequence of dot-separated DNS-style labels.

use vstd::prelude::*;
use vstd::string::StrSliceExecFns;

use crate::text::find_from;

verus! {

pub const MAX_LEN: usize = 255;

#[derive(Debug, Clone)]
pub struct Email {
    email: String,
}

#[derive(Debug, PartialEq, Eq)]
pub enum EmailNewError {
    Empty,
    TooLong,
    WrongFormat,
}

impl View for Email {
    type V = Seq<char>;

    closed spec fn view(&self) -> Seq<char> {
        self.email@
    }
}

/// Email values are equal exactly when their texts are.
impl PartialEq for Email {
    fn eq(&self, other: &Email) -> (r: bool) {
        self.email == other.email
    }
}

impl vstd::std_specs::cmp::PartialEqSpecImpl for Email {
    open spec fn obeys_eq_spec() -> bool {
        true
    }

    open spec fn eq_spec(&self, other: &Email) -> bool {
        self@ == other@
    }
}

pub open spec fn is_alnum(c: char) -> bool {
    (48 <= c as u32 && c as u32 <= 57) || (65 <= c as u32 && c as u32 <= 90) || (97 <= c as u32
        && c as u32 <= 122)
}

/// Characters permitted in the local part, before the `@`.
pub open spec fn is_local_char(c: char) -> bool {
    is_alnum(c) || c == '.' || c == '!' || c == '#' || c == '$' || c == '%' || c == '&' || c == '\''
        || c == '*' || c == '+' || c == '/' || c == '=' || c == '?' || c == '^' || c == '_' || c
        == '`' || c == '{' || c == '|' || c == '}' || c == '~' || c == '-'
}

/// Characters permitted inside a domain label.
pub open spec fn is_label_char(c: char) -> bool {
    is_alnum(c) || c == '-'
}

/// A domain label on `[a, b)`: one to 63 characters, alphanumeric at both
/// ends, alphanumeric or hyphen inside.
pub open spec fn valid_label_range(s: Seq<char>, a: int, b: int) -> bool {
    &&& 1 <= b - a <= 63
    &&& is_alnum(s[a])
    &&& is_alnum(s[b - 1])
    &&& forall|j: int| a <= j < b ==> is_label_char(s[j])
}

/// The suffix of `s` starting at `i` is a dot-separated sequence of valid
/// labels.
pub open spec fn valid_domain_from(s: Seq<char>, i: int) -> bool
    decreases s.len() - i,
{
    match find_from(s, i, '.') {
        None => valid_label_range(s, i, s.len() as int),
        Some(k) => if i <= k && k < s.len() {
            valid_label_range(s, i, k) && valid_domain_from(s, k + 1)
        } else {
            false
        },
    }
}

/// The email grammar: a non-empty local part, one `@`, then a valid domain.
/// The local character set excludes `@`, so the split is at the first `@`.
pub open spec fn valid_email(s: Seq<char>) -> bool {
    match find_from(s, 0, '@') {
        None => false,
        Some(k) => {
            &&& k >= 1
            &&& forall|j: int| 0 <= j < k ==> is_local_char(s[j])
            &&& valid_domain_from(s, k + 1)
        },
    }
}

/// The validation rule for an email: emptiness, then length, then format, so
/// the first violated rule decides the error.
pub open spec fn email_rule(s: Seq<char>) -> Result<(), EmailNewError> {
    if s.len() == 0 {
        Err(EmailNewError::Empty)
    } else if s.len() > MAX_LEN {
        Err(EmailNewError::TooLong)
    } else if !valid_email(s) {
        Err(EmailNewError::WrongFormat)
    } else {
        Ok(())
    }
}

fn is_alnum_c(c: char) -> (r: bool)
    ensures
        r == is_alnum(c),
{
    let u = c as u32;
    (48 <= u && u <= 57) || (65 <= u && u <= 90) || (97 <= u && u <= 122)
}

fn is_local_char_c(c: char) -> (r: bool)
    ensures
        r == is_local_char(c),
{
    is_alnum_c(c) || c == '.' || c == '!' || c == '#' || c == '$' || c == '%' || c == '&' || c
        == '\'' || c == '*' || c == '+' || c == '/' || c == '=' || c == '?' || c == '^' || c == '_'
        || c == '`' || c == '{' || c == '|' || c == '}' || c == '~' || c == '-'
}

fn is_label_char_c(c: char) -> (r: bool)
    ensures
        r == is_label_char(c),
{
    is_alnum_c(c) || c == '-'
}

/// First occurrence of `c` in `s` at or after `from`.
fn find_char(s: &str, from: usize, c: char) -> (r: Option<usize>)
    requires
        from <= s@.len(),
    ensures
        match r {
            Some(k) => from <= k && (k as int) < s@.len() && find_from(s@, from as int, c)
                == Some(k as int),
            None => find_from(s@, from as int, c) is None,
        },
{
    let len = s.unicode_len();
    let mut i: usize = from;
    while i < len
        invariant
            from <= i <= len,
            len == s@.len(),
            find_from(s@, from as int, c) == find_from(s@, i as int, c),
        decreases len - i,
    {
        if s.get_char(i) == c {
            return Some(i);
        }
        i += 1;
    }
    None
}

/// Check one domain label on `[a, b)`.
fn check_label(s: &str, a: usize, b: usize) -> (r: bool)
    requires
        a <= b && b <= s@.len(),
    ensures
        r == valid_label_range(s@, a as int, b as int),
{
    if b - a < 1 || b - a > 63 {
        return false;
    }
    if !is_alnum_c(s.get_char(a)) {
        return false;
    }
    if !is_alnum_c(s.get_char(b - 1)) {
        return false;
    }
    let mut j: usize = a;
    while j < b
        invariant
            a <= j <= b,
            b <= s@.len(),
            forall|t: int| a <= t < j ==> is_label_char(s@[t]),
        decreases b - j,
    {
        if !is_label_char_c(s.get_char(j)) {
            return false;
        }
        j += 1;
    }
    true
}

/// Check the dot-separated labels of the domain suffix starting at `i`.
fn check_domain(s: &str, i: usize) -> (r: bool)
    requires
        i <= s@.len(),
    ensures
        r == valid_domain_from(s@, i as int),
    decreases s@.len() - i,
{
    let len = s.unicode_len();
    match find_char(s, i, '.') {
        None => check_label(s, i, len),
        Some(k) => check_label(s, i, k) && check_domain(s, k + 1),
    }
}

/// Whether `s` matches the email grammar.
pub fn is_valid_email(s: &str) -> (r: bool)
    ensures
        r == valid_email(s@),
{
    let len = s.unicode_len();
    match find_char(s, 0, '@') {
        None => false,
        Some(k) => {
            if k < 1 {
                return false;
            }
            let mut j: usize = 0;
            while j < k
                invariant
                    1 <= k,
                    j <= k,
                    (k as int) < s@.len(),
                    s@.len() == len,
                    find_from(s@, 0, '@') == Some(k as int),
                    forall|t: int| 0 <= t < j ==> is_local_char(s@[t]),
                decreases k - j,
            {
                if !is_local_char_c(s.get_char(j)) {
                    return false;
                }
                j += 1;
            }
            check_domain(s, k + 1)
        },
    }
}

impl Email {
    pub fn new(email: String) -> (r: Result<Email, EmailNewError>)
        ensures
            match r {
                Ok(em) => email_rule(email@) is Ok && em@ == email@,
                Err(e) => email_rule(email@) == Err::<(), EmailNewError>(e),
            },
    {
        let len = email.as_str().unicode_len();
        if len == 0 {
            return Err(EmailNewError::Empty);
        }
        if len > MAX_LEN {
            return Err(EmailNewError::TooLong);
        }
        if !is_valid_email(email.as_str()) {
            return Err(EmailNewError::WrongFormat);
        }
        Ok(Email { email })
    }

    /// Second constructor for values already accepted once (e.g. loaded from
    /// storage); it must not fail, so validity is a precondition rather than a
    /// second validation pass.
    pub fn restore(email: String) -> (r: Email)
        requires
            email_rule(email@) is Ok,
        ensures
            r@ == email@,
    {
        Email { email }
    }

    pub fn value(&self) -> (r: &str)
        ensures
            r@ == self@,
    {
        self.email.as_str()
    }
}

} // verus!
