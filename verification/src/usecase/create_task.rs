//! Task creation: presence checks on the payload, field validation, and the
//! mapping of the store's outcome.

use vstd::prelude::*;

use crate::task::deadline::rfc3339_millis;
use crate::task::status::{status_parse, Status, StatusNewError};
use crate::task::{opt_view, task_rule, Task, TaskNewError};
use crate::user::id::Id;

verus! {

pub struct Payload {
    pub user_id: Id,
    pub title: Option<String>,
    pub description: Option<String>,
    pub status: Option<String>,
    pub deadline: Option<String>,
}

#[derive(Debug, PartialEq, Eq)]
pub enum Error {
    TitleEmpty,
    TitleTooLong,
    DescriptionTooLong,
    StatusUnknown,
    DeadlineWrongFormat,
    Database,
}

pub open spec fn task_error_of(e: TaskNewError) -> Error {
    match e {
        TaskNewError::TitleEmpty => Error::TitleEmpty,
        TaskNewError::TitleTooLong => Error::TitleTooLong,
        TaskNewError::DescriptionTooLong => Error::DescriptionTooLong,
        TaskNewError::StatusUnknown => Error::StatusUnknown,
        TaskNewError::DeadlineWrongFormat => Error::DeadlineWrongFormat,
    }
}

/// The validation rule for a creation payload: a missing title, then a
/// missing status, then the task field rules in their order.
pub open spec fn create_task_rule(
    title: Option<Seq<char>>,
    description: Option<Seq<char>>,
    status: Option<Seq<char>>,
    deadline: Option<Seq<char>>,
) -> Result<(), Error> {
    match title {
        None => Err(Error::TitleEmpty),
        Some(t) => match status {
            None => Err(Error::StatusUnknown),
            Some(st) => match task_rule(t, description, st, deadline) {
                Ok(_) => Ok(()),
                Err(e) => Err(task_error_of(e)),
            },
        },
    }
}

/// Validate a creation payload into a task for the payload's user; fails
/// exactly on the first violated rule. The store insert is the caller's; its
/// outcome goes through `insert_outcome_result`.
pub fn create_task(payload: Payload) -> (r: Result<Task, Error>)
    ensures
        match r {
            Ok(t) => {
                &&& create_task_rule(
                    opt_view(payload.title),
                    opt_view(payload.description),
                    opt_view(payload.status),
                    opt_view(payload.deadline),
                ) is Ok
                &&& t.spec_user_id() == payload.user_id@
                &&& payload.title matches Some(ti) && t.spec_title() == ti@
                &&& t.spec_description() == opt_view(payload.description)
                &&& payload.status matches Some(st) && status_parse(st@) == Ok::<
                    Status,
                    StatusNewError,
                >(t.spec_status())
                &&& match payload.deadline {
                    Some(dl) => rfc3339_millis(dl@) matches Some(m) && t.spec_deadline() == Some(
                        m as int,
                    ),
                    None => t.spec_deadline() is None,
                }
            },
            Err(e) => create_task_rule(
                opt_view(payload.title),
                opt_view(payload.description),
                opt_view(payload.status),
                opt_view(payload.deadline),
            ) == Err::<(), Error>(e),
        },
{
    let title = match payload.title {
        Some(t) => t,
        None => {
            return Err(Error::TitleEmpty);
        },
    };
    let status = match payload.status {
        Some(s) => s,
        None => {
            return Err(Error::StatusUnknown);
        },
    };
    match Task::_new(
        payload.user_id.value().to_owned(),
        title,
        payload.description,
        status,
        payload.deadline,
    ) {
        Ok(t) => Ok(t),
        Err(TaskNewError::TitleEmpty) => Err(Error::TitleEmpty),
        Err(TaskNewError::TitleTooLong) => Err(Error::TitleTooLong),
        Err(TaskNewError::DescriptionTooLong) => Err(Error::DescriptionTooLong),
        Err(TaskNewError::StatusUnknown) => Err(Error::StatusUnknown),
        Err(TaskNewError::DeadlineWrongFormat) => Err(Error::DeadlineWrongFormat),
    }
}

/// Map the store's answer to the use case's result.
pub fn insert_outcome_result(inserted: bool) -> (r: Result<(), Error>)
    ensures
        inserted ==> r is Ok,
        !inserted ==> r == Err::<(), Error>(Error::Database),
{
    if inserted {
        Ok(())
    } else {
        Err(Error::Database)
    }
}

/// The HTTP status a task creation error is reported with: the client's
/// mistakes are 400, an internal fault is 500.
pub fn error_status(e: &Error) -> (s: u16)
    ensures
        s == (match e {
            Error::Database => 500u16,
            _ => 400u16,
        }),
{
    match e {
        Error::Database => 500,
        _ => 400,
    }
}

} // verus!
