//! Task deletion: the payload naming the task and its owner, and the mapping
//! of the store's outcome; the delete statement itself is the caller's.

use vstd::prelude::*;

verus! {

pub struct Payload {
    user_id: String,
    task_id: String,
}

#[derive(Debug, PartialEq, Eq)]
pub enum Error {
    DatabaseError,
}

impl Payload {
    pub closed spec fn spec_user_id(&self) -> Seq<char> {
        self.user_id@
    }

    pub closed spec fn spec_task_id(&self) -> Seq<char> {
        self.task_id@
    }

    pub fn new(user_id: String, task_id: String) -> (r: Payload)
        ensures
            r.spec_user_id() == user_id@,
            r.spec_task_id() == task_id@,
    {
        Payload { user_id, task_id }
    }

    pub fn user_id(&self) -> (r: &str)
        ensures
            r@ == self.spec_user_id(),
    {
        self.user_id.as_str()
    }

    pub fn task_id(&self) -> (r: &str)
        ensures
            r@ == self.spec_task_id(),
    {
        self.task_id.as_str()
    }
}

/// Map the store's answer to the use case's result.
pub fn delete_outcome_result(deleted: bool) -> (r: Result<(), Error>)
    ensures
        deleted ==> r is Ok,
        !deleted ==> r == Err::<(), Error>(Error::DatabaseError),
{
    if deleted {
        Ok(())
    } else {
        Err(Error::DatabaseError)
    }
}

} // verus!
