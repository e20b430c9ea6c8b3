//! Response status codes.

use vstd::prelude::*;

verus! {

/// The status codes this server answers with.
#[derive(Clone, Copy, Debug, PartialEq, Eq, Structural)]
pub enum Status {
    Success,
    Created,
    NoContent,
    PartialContent,
    MovedPermanently,
    BadRequest,
    Forbidden,
    NotFound,
    MethodNotAllowed,
    RangeNotSatisfiable,
    NotImplemented,
}

impl Status {
    /// The numeric code sent on the wire.
    pub open spec fn spec_code(self) -> int {
        match self {
            Status::Success => 200,
            Status::Created => 201,
            Status::NoContent => 204,
            Status::PartialContent => 206,
            Status::MovedPermanently => 301,
            Status::BadRequest => 400,
            Status::Forbidden => 403,
            Status::NotFound => 404,
            Status::MethodNotAllowed => 405,
            Status::RangeNotSatisfiable => 416,
            Status::NotImplemented => 501,
        }
    }

    /// The numeric code sent on the wire.
    pub fn code(self) -> (c: u16)
        ensures
            c == self.spec_code(),
    {
        match self {
            Status::Success => 200,
            Status::Created => 201,
            Status::NoContent => 204,
            Status::PartialContent => 206,
            Status::MovedPermanently => 301,
            Status::BadRequest => 400,
            Status::Forbidden => 403,
            Status::NotFound => 404,
            Status::MethodNotAllowed => 405,
            Status::RangeNotSatisfiable => 416,
            Status::NotImplemented => 501,
        }
    }
}

} // verus!
