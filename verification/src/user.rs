pub mod access_token;
pub mod email;
pub mod id;
pub mod password;

use vstd::prelude::*;

use email::{email_rule, Email, EmailNewError};
use id::Id;

verus! {

#[derive(Debug, Clone)]
pub struct User {
    id: Id,
    email: Email,
}

#[derive(Debug, PartialEq, Eq)]
pub enum UserNewError {
    EmailEmpty,
    EmailTooLong,
    EmailWrongFormat,
}

/// How an email validation error surfaces on a user.
pub open spec fn user_error_of(e: EmailNewError) -> UserNewError {
    match e {
        EmailNewError::Empty => UserNewError::EmailEmpty,
        EmailNewError::TooLong => UserNewError::EmailTooLong,
        EmailNewError::WrongFormat => UserNewError::EmailWrongFormat,
    }
}

impl User {
    pub closed spec fn spec_id(&self) -> Seq<char> {
        self.id@
    }

    pub closed spec fn spec_email(&self) -> Seq<char> {
        self.email@
    }

    /// A new user with a fresh identifier; fails exactly when the email fails
    /// validation.
    pub fn new(email: String) -> (r: Result<User, UserNewError>)
        ensures
            match r {
                Ok(u) => email_rule(email@) is Ok && u.spec_email() == email@ && u.spec_id().len()
                    == 36,
                Err(e) => email_rule(email@) matches Err(ee) && e == user_error_of(ee),
            },
    {
        let id = Id::new();
        match Email::new(email) {
            Ok(em) => Ok(User { id, email: em }),
            Err(EmailNewError::Empty) => Err(UserNewError::EmailEmpty),
            Err(EmailNewError::TooLong) => Err(UserNewError::EmailTooLong),
            Err(EmailNewError::WrongFormat) => Err(UserNewError::EmailWrongFormat),
        }
    }

    /// Rebuild a user from stored values; the email must already have been
    /// accepted once, so validity is a precondition.
    pub fn restore(id: String, email: String) -> (r: User)
        requires
            email_rule(email@) is Ok,
        ensures
            r.spec_id() == id@,
            r.spec_email() == email@,
    {
        User { id: Id::restore(id), email: Email::restore(email) }
    }

    pub fn id(&self) -> (r: &Id)
        ensures
            r@ == self.spec_id(),
    {
        &self.id
    }

    pub fn email(&self) -> (r: &Email)
        ensures
            r@ == self.spec_email(),
    {
        &self.email
    }
}

} // verus!
