//! Task title: non-empty, at most `MAX_LENGTH` characters.

use vstd::prelude::*;
use vstd::string::StrSliceExecFns;

verus! {

pub const MAX_LENGTH: usize = 40;

#[derive(Debug)]
pub struct Title {
    value: String,
}

#[derive(Debug, PartialEq, Eq)]
pub enum TitleNewError {
    Empty,
    TooLong,
}

impl View for Title {
    type V = Seq<char>;

    closed spec fn view(&self) -> Seq<char> {
        self.value@
    }
}

/// The validation rule for a title: emptiness is checked before length, so
/// the first violated rule decides the error.
pub open spec fn title_rule(s: Seq<char>) -> Result<(), TitleNewError> {
    if s.len() == 0 {
        Err(TitleNewError::Empty)
    } else if s.len() > MAX_LENGTH {
        Err(TitleNewError::TooLong)
    } else {
        Ok(())
    }
}

impl Title {
    pub fn new(value: String) -> (r: Result<Title, TitleNewError>)
        ensures
            match r {
                Ok(t) => title_rule(value@) is Ok && t@ == value@,
                Err(e) => title_rule(value@) == Err::<(), TitleNewError>(e),
            },
    {
        if value.as_str().unicode_len() == 0 {
            return Err(TitleNewError::Empty);
        }
        if value.as_str().unicode_len() > MAX_LENGTH {
            return Err(TitleNewError::TooLong);
        }
        Ok(Title { value })
    }

    /// Second constructor for values already accepted once; it must not fail,
    /// so validity is a precondition.
    pub fn restore(value: String) -> (r: Title)
        requires
            title_rule(value@) is Ok,
        ensures
            r@ == value@,
    {
        Title { value }
    }

    pub fn value(&self) -> (r: &str)
        ensures
            r@ == self@,
    {
        self.value.as_str()
    }
}

} // verus!
