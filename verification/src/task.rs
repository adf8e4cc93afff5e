pub mod deadline;
pub mod description;
pub mod status;
pub mod title;

use vstd::prelude::*;

use crate::user::id::Id;
use deadline::{rfc3339_millis, Deadline, DeadlineNewError};
use description::{description_rule, Description, DescriptionNewError};
use status::{status_parse, Status, StatusNewError};
use title::{title_rule, Title, TitleNewError};

verus! {

#[derive(Debug)]
pub struct Task {
    id: Id,
    user_id: Id,
    title: Title,
    description: Option<Description>,
    status: Status,
    deadline: Option<Deadline>,
}

#[derive(Debug, PartialEq, Eq)]
pub enum TaskNewError {
    TitleEmpty,
    TitleTooLong,
    DescriptionTooLong,
    StatusUnknown,
    DeadlineWrongFormat,
}

pub open spec fn opt_view(o: Option<String>) -> Option<Seq<char>> {
    match o {
        Some(s) => Some(s@),
        None => None,
    }
}

/// The validation rule for a task's fields, checked in a fixed order — title,
/// description, status, deadline — so the first violated rule decides the
/// error.
pub open spec fn task_rule(
    title: Seq<char>,
    description: Option<Seq<char>>,
    status: Seq<char>,
    deadline: Option<Seq<char>>,
) -> Result<(), TaskNewError> {
    match title_rule(title) {
        Err(TitleNewError::Empty) => Err(TaskNewError::TitleEmpty),
        Err(TitleNewError::TooLong) => Err(TaskNewError::TitleTooLong),
        Ok(_) => if description matches Some(d) && description_rule(d) is Err {
            Err(TaskNewError::DescriptionTooLong)
        } else if status_parse(status) is Err {
            Err(TaskNewError::StatusUnknown)
        } else if deadline matches Some(dl) && rfc3339_millis(dl) is None {
            Err(TaskNewError::DeadlineWrongFormat)
        } else {
            Ok(())
        },
    }
}

impl Task {
    pub closed spec fn spec_id(&self) -> Seq<char> {
        self.id@
    }

    pub closed spec fn spec_user_id(&self) -> Seq<char> {
        self.user_id@
    }

    pub closed spec fn spec_title(&self) -> Seq<char> {
        self.title@
    }

    pub closed spec fn spec_description(&self) -> Option<Seq<char>> {
        match self.description {
            Some(d) => Some(d@),
            None => None,
        }
    }

    pub closed spec fn spec_status(&self) -> Status {
        self.status
    }

    pub closed spec fn spec_deadline(&self) -> Option<int> {
        match self.deadline {
            Some(d) => Some(d@),
            None => None,
        }
    }

    /// A new task with a fresh identifier for an existing user; fails exactly
    /// on the first field that fails validation.
    pub fn _new(
        user_id: String,
        title: String,
        description: Option<String>,
        status: String,
        deadline: Option<String>,
    ) -> (r: Result<Task, TaskNewError>)
        ensures
            match r {
                Ok(t) => {
                    &&& task_rule(title@, opt_view(description), status@, opt_view(deadline))
                        is Ok
                    &&& t.spec_user_id() == user_id@
                    &&& t.spec_id().len() == 36
                    &&& t.spec_title() == title@
                    &&& t.spec_description() == opt_view(description)
                    &&& status_parse(status@) == Ok::<Status, StatusNewError>(t.spec_status())
                    &&& match deadline {
                        Some(dl) => rfc3339_millis(dl@) matches Some(m) && t.spec_deadline()
                            == Some(m as int),
                        None => t.spec_deadline() is None,
                    }
                },
                Err(e) => task_rule(title@, opt_view(description), status@, opt_view(deadline))
                    == Err::<(), TaskNewError>(e),
            },
    {
        let id = Id::new();
        let user_id = Id::restore(user_id);
        let title = match Title::new(title) {
            Ok(t) => t,
            Err(TitleNewError::Empty) => {
                return Err(TaskNewError::TitleEmpty);
            },
            Err(TitleNewError::TooLong) => {
                return Err(TaskNewError::TitleTooLong);
            },
        };
        let description = match description {
            Some(d) => match Description::new(d) {
                Ok(d) => Some(d),
                Err(DescriptionNewError::TooLong) => {
                    return Err(TaskNewError::DescriptionTooLong);
                },
            },
            None => None,
        };
        let status = match Status::try_from(status.as_str()) {
            Ok(s) => s,
            Err(StatusNewError::Unknown) => {
                return Err(TaskNewError::StatusUnknown);
            },
        };
        let deadline = match deadline {
            Some(dl) => match Deadline::new(dl) {
                Ok(d) => Some(d),
                Err(DeadlineNewError::WrongFormat) => {
                    return Err(TaskNewError::DeadlineWrongFormat);
                },
            },
            None => None,
        };
        Ok(Task { id, user_id, title, description, status, deadline })
    }

    /// Rebuild a task from stored values, which were validated when first
    /// accepted; validity is a precondition, and the deadline arrives as the
    /// stored instant.
    pub fn restore(
        id: String,
        user_id: String,
        title: String,
        description: Option<String>,
        status: String,
        deadline: Option<i64>,
    ) -> (r: Task)
        requires
            title_rule(title@) is Ok,
            description matches Some(d) ==> description_rule(d@) is Ok,
            status_parse(status@) is Ok,
        ensures
            r.spec_id() == id@,
            r.spec_user_id() == user_id@,
            r.spec_title() == title@,
            r.spec_description() == opt_view(description),
            status_parse(status@) == Ok::<Status, StatusNewError>(r.spec_status()),
            r.spec_deadline() == (match deadline {
                Some(m) => Some(m as int),
                None => None::<int>,
            }),
    {
        let status = match Status::try_from(status.as_str()) {
            Ok(s) => s,
            Err(_) => {
                proof {
                    assert(false);
                }
                Status::ToDo
            },
        };
        Task {
            id: Id::restore(id),
            user_id: Id::restore(user_id),
            title: Title::restore(title),
            description: match description {
                Some(d) => Some(Description::restore(d)),
                None => None,
            },
            status,
            deadline: match deadline {
                Some(m) => Some(Deadline::restore(m)),
                None => None,
            },
        }
    }

    pub fn id(&self) -> (r: &Id)
        ensures
            r@ == self.spec_id(),
    {
        &self.id
    }

    pub fn user_id(&self) -> (r: &Id)
        ensures
            r@ == self.spec_user_id(),
    {
        &self.user_id
    }

    pub fn title(&self) -> (r: &Title)
        ensures
            r@ == self.spec_title(),
    {
        &self.title
    }

    pub fn description(&self) -> (r: Option<&Description>)
        ensures
            match r {
                Some(d) => self.spec_description() == Some(d@),
                None => self.spec_description() is None,
            },
    {
        match &self.description {
            Some(d) => Some(d),
            None => None,
        }
    }

    pub fn status(&self) -> (r: &Status)
        ensures
            r == self.spec_status(),
    {
        &self.status
    }

    pub fn deadline(&self) -> (r: Option<&Deadline>)
        ensures
            match r {
                Some(d) => self.spec_deadline() == Some(d@),
                None => self.spec_deadline() is None,
            },
    {
        match &self.deadline {
            Some(d) => Some(d),
            None => None,
        }
    }
}

} // verus!
