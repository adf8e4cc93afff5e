//! Login: presence checks on the payload and the credential decision on the
//! store's answer; the email lookup and the token issuance around it are the
//! caller's.

use vstd::prelude::*;

use crate::password::{password_verifies, verify_password};
use crate::user::id::Id;

verus! {

#[derive(Debug, PartialEq, Eq)]
pub enum LoginFieldError {
    EmailEmpty,
    PasswordEmpty,
}

/// The presence rule for a login payload: the email is checked before the
/// password.
pub open spec fn login_payload_rule(
    email: Option<Seq<char>>,
    password: Option<Seq<char>>,
) -> Result<(), LoginFieldError> {
    if email is None {
        Err(LoginFieldError::EmailEmpty)
    } else if password is None {
        Err(LoginFieldError::PasswordEmpty)
    } else {
        Ok(())
    }
}

pub open spec fn opt_view(o: &Option<String>) -> Option<Seq<char>> {
    match o {
        Some(s) => Some(s@),
        None => None,
    }
}

pub fn validate_login_payload(email: &Option<String>, password: &Option<String>) -> (r: Result<
    (),
    LoginFieldError,
>)
    ensures
        r == login_payload_rule(opt_view(email), opt_view(password)),
{
    if email.is_none() {
        Err(LoginFieldError::EmailEmpty)
    } else if password.is_none() {
        Err(LoginFieldError::PasswordEmpty)
    } else {
        Ok(())
    }
}

/// The credential decision: with no stored row the login fails; with a row,
/// it succeeds exactly when the password verifies against the stored digest,
/// and yields the stored identifier. An unknown email and a wrong password
/// are indistinguishable to the caller.
pub fn authenticate_credentials(password: &str, lookup: Option<(String, String)>) -> (r: Option<
    Id,
>)
    ensures
        match lookup {
            None => r is None,
            Some(row) => if password_verifies(password@, row.1@) {
                r matches Some(id) && id@ == row.0@
            } else {
                r is None
            },
        },
{
    match lookup {
        None => None,
        Some(row) => {
            let (id, digest) = row;
            if verify_password(password, digest.as_str()) {
                Some(Id::restore(id))
            } else {
                None
            }
        },
    }
}

} // verus!
