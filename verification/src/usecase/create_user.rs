//! Registration: validate the fields, hash the password, and prepare what
//! the store needs; the store call itself is the caller's, and its outcome is
//! mapped here.

use vstd::prelude::*;

use crate::password::password_verifies;
use crate::user::email::{email_rule, EmailNewError};
use crate::user::password::{password_rule, Password, PasswordNewError};
use crate::user::{User, UserNewError};

verus! {

#[derive(Debug, PartialEq, Eq)]
pub enum CreateUserError {
    EmailEmpty,
    EmailTooLong,
    EmailWrongFormat,
    EmailTaken,
    PasswordEmpty,
    PasswordTooShort,
    PasswordTooLong,
    DatabaseError,
}

/// A validated registration, ready to store: the new user and the digest
/// that is persisted in place of the password.
#[derive(Debug)]
pub struct Registration {
    pub user: User,
    pub password_hash: String,
}

/// The store's answer to inserting a new user row.
pub enum StoreInsertOutcome {
    Inserted,
    DuplicateEmail,
    Failed,
}

/// The validation rule for a registration payload, checked in order: email
/// presence, email rules, password presence, password rules.
pub open spec fn register_rule(
    email: Option<Seq<char>>,
    password: Option<Seq<char>>,
) -> Result<(), CreateUserError> {
    match email {
        None => Err(CreateUserError::EmailEmpty),
        Some(e) => match email_rule(e) {
            Err(EmailNewError::Empty) => Err(CreateUserError::EmailEmpty),
            Err(EmailNewError::TooLong) => Err(CreateUserError::EmailTooLong),
            Err(EmailNewError::WrongFormat) => Err(CreateUserError::EmailWrongFormat),
            Ok(_) => match password {
                None => Err(CreateUserError::PasswordEmpty),
                Some(p) => match password_rule(p) {
                    Err(PasswordNewError::TooShort) => Err(CreateUserError::PasswordTooShort),
                    Err(PasswordNewError::TooLong) => Err(CreateUserError::PasswordTooLong),
                    Ok(_) => Ok(()),
                },
            },
        },
    }
}

pub open spec fn opt_view(o: Option<String>) -> Option<Seq<char>> {
    match o {
        Some(s) => Some(s@),
        None => None,
    }
}

/// Validate a registration payload and hash its password. On success the
/// returned user carries the given email and a fresh identifier, and the
/// digest verifies against the given password. `DatabaseError` stands for a
/// hasher failure and comes only on a payload the rules accept; every other
/// error is exactly the first violated payload rule.
pub fn register_request(email: Option<String>, password: Option<String>) -> (r: Result<
    Registration,
    CreateUserError,
>)
    ensures
        register_rule(opt_view(email), opt_view(password)) matches Err(e) ==> r == Err::<
            Registration,
            CreateUserError,
        >(e),
        r matches Ok(reg) ==> {
            &&& register_rule(opt_view(email), opt_view(password)) is Ok
            &&& email matches Some(em) && reg.user.spec_email() == em@
            &&& reg.user.spec_id().len() == 36
            &&& password matches Some(p) && password_verifies(p@, reg.password_hash@)
        },
        r matches Err(e) ==> (e == CreateUserError::DatabaseError || register_rule(
            opt_view(email),
            opt_view(password),
        ) == Err::<(), CreateUserError>(e)),
        r == Err::<Registration, CreateUserError>(CreateUserError::DatabaseError)
            ==> register_rule(opt_view(email), opt_view(password)) is Ok,
{
    let email = match email {
        Some(e) => e,
        None => {
            return Err(CreateUserError::EmailEmpty);
        },
    };
    let user = match User::new(email) {
        Ok(u) => u,
        Err(UserNewError::EmailEmpty) => {
            return Err(CreateUserError::EmailEmpty);
        },
        Err(UserNewError::EmailTooLong) => {
            return Err(CreateUserError::EmailTooLong);
        },
        Err(UserNewError::EmailWrongFormat) => {
            return Err(CreateUserError::EmailWrongFormat);
        },
    };
    let password = match password {
        Some(p) => p,
        None => {
            return Err(CreateUserError::PasswordEmpty);
        },
    };
    let password = match Password::new(password) {
        Ok(p) => p,
        Err(PasswordNewError::TooShort) => {
            return Err(CreateUserError::PasswordTooShort);
        },
        Err(PasswordNewError::TooLong) => {
            return Err(CreateUserError::PasswordTooLong);
        },
    };
    let password_hash = match password.hashed() {
        Some(h) => h,
        None => {
            return Err(CreateUserError::DatabaseError);
        },
    };
    Ok(Registration { user, password_hash })
}

/// Map the store's answer: a duplicate email is the caller's mistake, any
/// other failure is internal.
pub fn insert_outcome_result(o: StoreInsertOutcome) -> (r: Result<(), CreateUserError>)
    ensures
        match o {
            StoreInsertOutcome::Inserted => r is Ok,
            StoreInsertOutcome::DuplicateEmail => r == Err::<(), CreateUserError>(
                CreateUserError::EmailTaken,
            ),
            StoreInsertOutcome::Failed => r == Err::<(), CreateUserError>(
                CreateUserError::DatabaseError,
            ),
        },
{
    match o {
        StoreInsertOutcome::Inserted => Ok(()),
        StoreInsertOutcome::DuplicateEmail => Err(CreateUserError::EmailTaken),
        StoreInsertOutcome::Failed => Err(CreateUserError::DatabaseError),
    }
}

/// The HTTP status a registration error is reported with: the client's
/// mistakes are 400, an internal fault is 500.
pub fn error_status(e: &CreateUserError) -> (s: u16)
    ensures
        s == (match e {
            CreateUserError::DatabaseError => 500u16,
            _ => 400u16,
        }),
{
    match e {
        CreateUserError::DatabaseError => 500,
        _ => 400,
    }
}

} // verus!
