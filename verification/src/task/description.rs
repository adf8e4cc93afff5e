//! Task description: optional free text, at most `MAX_LENGTH` characters.

use vstd::prelude::*;
use vstd::string::StrSliceExecFns;

verus! {

pub const MAX_LENGTH: usize = 1000;

#[derive(Debug)]
pub struct Description {
    value: String,
}

#[derive(Debug, PartialEq, Eq)]
pub enum DescriptionNewError {
    TooLong,
}

impl View for Description {
    type V = Seq<char>;

    closed spec fn view(&self) -> Seq<char> {
        self.value@
    }
}

/// The validation rule for a description: only the length is constrained.
pub open spec fn description_rule(s: Seq<char>) -> Result<(), DescriptionNewError> {
    if s.len() > MAX_LENGTH {
        Err(DescriptionNewError::TooLong)
    } else {
        Ok(())
    }
}

impl Description {
    pub fn new(value: String) -> (r: Result<Description, DescriptionNewError>)
        ensures
            match r {
                Ok(d) => description_rule(value@) is Ok && d@ == value@,
                Err(e) => description_rule(value@) == Err::<(), DescriptionNewError>(e),
            },
    {
        if value.as_str().unicode_len() > MAX_LENGTH {
            return Err(DescriptionNewError::TooLong);
        }
        Ok(Description { value })
    }

    /// Second constructor for values already accepted once; it must not fail,
    /// so validity is a precondition.
    pub fn restore(value: String) -> (r: Description)
        requires
            description_rule(value@) is Ok,
        ensures
            r@ == value@,
    {
        Description { value }
    }

    pub fn value(&self) -> (r: &str)
        ensures
            r@ == self@,
    {
        self.value.as_str()
    }
}

} // verus!
