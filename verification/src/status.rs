//! The HTTP statuses with which the service answers.

use vstd::prelude::*;

verus! {

/// An HTTP status of a reply.
#[derive(Debug, Clone, Copy, PartialEq, Eq, Structural)]
pub enum Status {
    /// 200 OK.
    Success,
    /// 201 Created.
    Created,
    /// 404 Not Found.
    NotFound,
    /// 409 Conflict.
    Conflict,
    /// 500 Internal Server Error.
    InternalServerError,
}

impl Status {
    /// The numeric code that goes on the wire.
    pub open spec fn spec_code(&self) -> u16 {
        match self {
            Status::Success => 200,
            Status::Created => 201,
            Status::NotFound => 404,
            Status::Conflict => 409,
            Status::InternalServerError => 500,
        }
    }

    /// The numeric code that goes on the wire.
    #[verifier::when_used_as_spec(spec_code)]
    pub fn code(&self) -> (code: u16)
        ensures
            code == self.spec_code(),
    {
        match self {
            Status::Success => 200,
            Status::Created => 201,
            Status::NotFound => 404,
            Status::Conflict => 409,
            Status::InternalServerError => 500,
        }
    }
}

} // verus!
