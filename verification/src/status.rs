//! HTTP status codes that the request handlers answer with.
use vstd::prelude::*;

verus! {

/// Status of a response.
#[derive(Clone, Copy, Debug, PartialEq, Eq, Structural)]
pub enum StatusCode {
    /// 204
    NoContent,
    /// 400
    BadRequest,
    /// 401
    Unauthorized,
    /// 429
    TooManyRequests,
    /// 500
    InternalServerError,
    /// 502
    BadGateway,
    /// 503
    ServiceUnavailable,
}

/// The registered number of a status.
pub open spec fn status_number(status: StatusCode) -> u16 {
    match status {
        StatusCode::NoContent => 204,
        StatusCode::BadRequest => 400,
        StatusCode::Unauthorized => 401,
        StatusCode::TooManyRequests => 429,
        StatusCode::InternalServerError => 500,
        StatusCode::BadGateway => 502,
        StatusCode::ServiceUnavailable => 503,
    }
}

impl StatusCode {
    /// The number that goes on the wire.
    pub fn as_u16(self) -> (number: u16)
        ensures
            number == status_number(self),
    {
        match self {
            StatusCode::NoContent => 204,
            StatusCode::BadRequest => 400,
            StatusCode::Unauthorized => 401,
            StatusCode::TooManyRequests => 429,
            StatusCode::InternalServerError => 500,
            StatusCode::BadGateway => 502,
            StatusCode::ServiceUnavailable => 503,
        }
    }
}

/// Answer of the liveness probe.
pub fn health() -> (status: StatusCode)
    ensures
        status == StatusCode::NoContent,
{
    StatusCode::NoContent
}

/// A status goes out under the number that is registered for it: the one that tells of success under
/// 204, those that blame the request from 400 on, those that blame the service from 500 on. No two
/// go out under one number.
pub proof fn statuses_have_their_numbers(one: StatusCode, other: StatusCode)
    ensures
        status_number(one) == 204 <==> one == StatusCode::NoContent,
        status_number(one) == 400 <==> one == StatusCode::BadRequest,
        status_number(one) == 401 <==> one == StatusCode::Unauthorized,
        status_number(one) == 429 <==> one == StatusCode::TooManyRequests,
        status_number(one) == 500 <==> one == StatusCode::InternalServerError,
        status_number(one) == 502 <==> one == StatusCode::BadGateway,
        status_number(one) == 503 <==> one == StatusCode::ServiceUnavailable,
        status_number(one) == status_number(other) ==> one == other,
{
}

} // verus!
