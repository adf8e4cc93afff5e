//! Task status: a closed enumeration with a canonical string spelling.

use vstd::prelude::*;

verus! {

#[derive(Debug, PartialEq, Eq, Structural, Clone, Copy)]
pub enum Status {
    ToDo,
    InProgress,
    Done,
}

#[derive(Debug, PartialEq, Eq)]
pub enum StatusNewError {
    Unknown,
}

/// The canonical spelling of each status.
pub open spec fn status_str(s: Status) -> Seq<char> {
    match s {
        Status::ToDo => "ToDo"@,
        Status::InProgress => "InProgress"@,
        Status::Done => "Done"@,
    }
}

/// Parsing a spelling: exactly the three canonical spellings are accepted.
pub open spec fn status_parse(s: Seq<char>) -> Result<Status, StatusNewError> {
    if s == "ToDo"@ {
        Ok(Status::ToDo)
    } else if s == "InProgress"@ {
        Ok(Status::InProgress)
    } else if s == "Done"@ {
        Ok(Status::Done)
    } else {
        Err(StatusNewError::Unknown)
    }
}

impl Status {
    pub fn try_from(value: &str) -> (r: Result<Status, StatusNewError>)
        ensures
            r == status_parse(value@),
    {
        if crate::text::str_eq(value, "ToDo") {
            Ok(Status::ToDo)
        } else if crate::text::str_eq(value, "InProgress") {
            Ok(Status::InProgress)
        } else if crate::text::str_eq(value, "Done") {
            Ok(Status::Done)
        } else {
            Err(StatusNewError::Unknown)
        }
    }

    pub fn as_str(&self) -> (r: &'static str)
        ensures
            r@ == status_str(*self),
    {
        match self {
            Status::ToDo => "ToDo",
            Status::InProgress => "InProgress",
            Status::Done => "Done",
        }
    }
}

/// Law: the canonical spelling of a status parses back to that status, so the
/// string representation round-trips losslessly.
pub proof fn lemma_status_roundtrip(s: Status)
    ensures
        status_parse(status_str(s)) == Ok::<Status, StatusNewError>(s),
{
    reveal_strlit("ToDo");
    reveal_strlit("InProgress");
    reveal_strlit("Done");
    match s {
        Status::ToDo => {
            assert(status_parse(status_str(s)) == Ok::<Status, StatusNewError>(s));
        },
        Status::InProgress => {
            assert(("InProgress"@).len() == 10 && ("ToDo"@).len() == 4);
            assert(status_parse(status_str(s)) == Ok::<Status, StatusNewError>(s));
        },
        Status::Done => {
            assert(("Done"@).len() == 4 && ("ToDo"@).len() == 4 && ("InProgress"@).len() == 10);
            assert(("Done"@)[0] == 'D' && ("ToDo"@)[0] == 'T');
            assert(status_parse(status_str(s)) == Ok::<Status, StatusNewError>(s));
        },
    }
}

} // verus!
