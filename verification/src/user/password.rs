//! Raw password: a transient secret that exists only long enough to be
//! hashed; only its length is constrained.

use vstd::prelude::*;
use vstd::string::StrSliceExecFns;

use crate::password::password_verifies;

verus! {

pub const MIN_LEN: usize = 8;

pub const MAX_LEN: usize = 255;

#[derive(Debug)]
pub struct Password {
    password: String,
}

#[derive(Debug, PartialEq, Eq)]
pub enum PasswordNewError {
    TooShort,
    TooLong,
}

impl View for Password {
    type V = Seq<char>;

    closed spec fn view(&self) -> Seq<char> {
        self.password@
    }
}

/// The validation rule for a raw password: too short is reported before too
/// long.
pub open spec fn password_rule(s: Seq<char>) -> Result<(), PasswordNewError> {
    if s.len() < MIN_LEN {
        Err(PasswordNewError::TooShort)
    } else if s.len() > MAX_LEN {
        Err(PasswordNewError::TooLong)
    } else {
        Ok(())
    }
}

impl Password {
    pub fn new(password: String) -> (r: Result<Password, PasswordNewError>)
        ensures
            match r {
                Ok(p) => password_rule(password@) is Ok && p@ == password@,
                Err(e) => password_rule(password@) == Err::<(), PasswordNewError>(e),
            },
    {
        let len = password.as_str().unicode_len();
        if len < MIN_LEN {
            return Err(PasswordNewError::TooShort);
        }
        if len > MAX_LEN {
            return Err(PasswordNewError::TooLong);
        }
        Ok(Password { password })
    }

    /// Hash this password with a fresh salt; the digest is what gets stored.
    /// `None` only when the hasher itself fails.
    pub fn hashed(&self) -> (r: Option<String>)
        ensures
            r matches Some(d) ==> password_verifies(self@, d@),
    {
        crate::password::hash_password(self.password.as_str())
    }
}

} // verus!
