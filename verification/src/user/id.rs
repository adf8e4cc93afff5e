//! Opaque identifier: a time-ordered unique value wrapped in a string.

use vstd::prelude::*;

verus! {

/// Relies on uuid::Uuid::now_v7 and uuid's `String` conversion: a fresh
/// version-7 UUID rendered in the 36-character lowercase hyphenated form,
/// hexadecimal digits and hyphens only (all printable ASCII, no quote or
/// backslash).
#[verifier::external_body]
fn uuid_v7_string() -> (r: String)
    ensures
        r@.len() == 36,
        crate::payload::token_safe(r@),
{
    uuid::Uuid::now_v7().into()
}

#[derive(Debug, Clone)]
pub struct Id {
    id: String,
}

impl View for Id {
    type V = Seq<char>;

    closed spec fn view(&self) -> Seq<char> {
        self.id@
    }
}

/// Identifiers are equal exactly when their underlying values are.
impl PartialEq for Id {
    fn eq(&self, other: &Id) -> (r: bool) {
        self.id == other.id
    }
}

impl vstd::std_specs::cmp::PartialEqSpecImpl for Id {
    open spec fn obeys_eq_spec() -> bool {
        true
    }

    open spec fn eq_spec(&self, other: &Id) -> bool {
        self@ == other@
    }
}

impl Id {
    /// A fresh identifier; generation is time-ordered, so fresh identifiers
    /// sort chronologically.
    pub fn new() -> (r: Id)
        ensures
            r@.len() == 36,
            crate::payload::token_safe(r@),
    {
        Id { id: uuid_v7_string() }
    }

    /// Wrap a previously persisted value without regenerating it.
    pub fn restore(id: String) -> (r: Id)
        ensures
            r@ == id@,
    {
        Id { id }
    }

    pub fn value(&self) -> (r: &str)
        ensures
            r@ == self@,
    {
        self.id.as_str()
    }
}

} // verus!
