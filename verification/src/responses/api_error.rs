//! The one structured failure that an operation reports.
use vstd::prelude::*;
use vstd::string::StringExecFns;

verus! {

/// The outcome classes that a caller can tell apart.
#[derive(Clone, Copy, Debug, PartialEq, Eq, Structural)]
pub enum Status {
    Success,
    BadRequest,
    NotFound,
    Conflict,
    InternalServerError,
}

impl Status {
    /// The numeric code of this status.
    pub open spec fn spec_code(self) -> u16 {
        match self {
            Status::Success => 200u16,
            Status::BadRequest => 400u16,
            Status::NotFound => 404u16,
            Status::Conflict => 409u16,
            Status::InternalServerError => 500u16,
        }
    }

    /// The status that a numeric code stands for. A code that stands for
    /// none of the others is taken as a failure inside the server.
    pub open spec fn spec_from_code(code: u16) -> Status {
        if code == 200 {
            Status::Success
        } else if code == 400 {
            Status::BadRequest
        } else if code == 404 {
            Status::NotFound
        } else if code == 409 {
            Status::Conflict
        } else {
            Status::InternalServerError
        }
    }

    /// The status that a numeric code stands for.
    pub fn from_code(code: u16) -> (status: Status)
        ensures
            status == Self::spec_from_code(code),
    {
        if code == 200 {
            Status::Success
        } else if code == 400 {
            Status::BadRequest
        } else if code == 404 {
            Status::NotFound
        } else if code == 409 {
            Status::Conflict
        } else {
            Status::InternalServerError
        }
    }

    /// The numeric code of this status.
    pub fn code(self) -> (code: u16)
        ensures
            code == self.spec_code(),
    {
        match self {
            Status::Success => 200u16,
            Status::BadRequest => 400u16,
            Status::NotFound => 404u16,
            Status::Conflict => 409u16,
            Status::InternalServerError => 500u16,
        }
    }
}

/// A status is found again from its code.
pub proof fn lemma_status_code_round_trip(status: Status)
    ensures
        Status::spec_from_code(status.spec_code()) == status,
{
}

/// A failure: a message for the caller and the class it falls in. It is
/// rendered as an object with the single field `error`.
#[derive(Debug)]
pub struct ApiError {
    pub message: String,
    pub status: Status,
}

/// A failure as plain mathematical values.
pub struct ApiErrorView {
    pub message: Seq<char>,
    pub status: Status,
}

impl View for ApiError {
    type V = ApiErrorView;

    open spec fn view(&self) -> ApiErrorView {
        ApiErrorView { message: self.message@, status: self.status }
    }
}

impl ApiError {
    /// A failure with the given message and status.
    pub fn new(message: &str, status: Status) -> (error: ApiError)
        ensures
            error@ == (ApiErrorView { message: message@, status }),
    {
        ApiError { message: String::from_str(message), status }
    }

    /// A failure inside the server: the given message with
    /// `InternalServerError`.
    pub fn default(message: &str) -> (error: ApiError)
        ensures
            error@ == (ApiErrorView { message: message@, status: Status::InternalServerError }),
    {
        ApiError { message: String::from_str(message), status: Status::InternalServerError }
    }
}

} // verus!
