//! The fixed response bodies for generic failures: an internal error never
//! exposes its cause, and a missing resource is reported with one fixed
//! message.

use vstd::prelude::*;

verus! {

#[derive(Debug, PartialEq, Eq, Structural, Clone, Copy)]
pub enum InternalServerErrorCode {
    InternalServerError,
}

#[derive(Debug)]
pub struct InternalServerError {
    pub code: InternalServerErrorCode,
    pub message: String,
}

impl Default for InternalServerError {
    fn default() -> (r: Self)
        ensures
            r.code == InternalServerErrorCode::InternalServerError,
            r.message@ == "Internal server error"@,
    {
        InternalServerError {
            code: InternalServerErrorCode::InternalServerError,
            message: "Internal server error".to_owned(),
        }
    }
}

#[derive(Debug, PartialEq, Eq, Structural, Clone, Copy)]
pub enum NotFoundErrorCode {
    NotFound,
}

#[derive(Debug)]
pub struct NotFoundError {
    pub code: NotFoundErrorCode,
    pub message: String,
}

impl Default for NotFoundError {
    fn default() -> (r: Self)
        ensures
            r.code == NotFoundErrorCode::NotFound,
            r.message@ == "Not found"@,
    {
        NotFoundError { code: NotFoundErrorCode::NotFound, message: "Not found".to_owned() }
    }
}

} // verus!
