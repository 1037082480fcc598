//! The failure space and the single error-mapping stage: a total function
//! from every kind of failure the routing layer can raise to one concrete
//! HTTP response.

use vstd::prelude::*;
use vstd::string::StringExecFns;

verus! {

/// Application-level failure kinds raised by handler logic. None of the
/// current handlers raise one, but the mapping exists for forward use.
#[derive(Debug, Clone, Copy, PartialEq, Eq, Structural)]
pub enum AppError {
    NotFound,
    Unauthorized,
    InvalidToken,
    BadRequest,
    Duplicate,
    InternalServerError,
    ServiceUnavailable,
}

/// Everything a route group's recovery stage can be asked to convert:
/// typed application failures, a body-decode failure carrying its detail
/// text, the transport-level conditions, and a catch-all.
#[derive(Debug, Clone, PartialEq)]
pub enum Rejection {
    App(AppError),
    BodyDecode(String),
    MethodNotAllowed,
    UnsupportedMediaType,
    NotFound,
    Unknown,
}

/// A finished HTTP response: status code and body text.
#[derive(Debug, Clone, PartialEq)]
pub struct Response {
    pub status: u16,
    pub body: String,
}

/// The user-visible text of each application failure kind.
pub open spec fn app_error_message(e: AppError) -> Seq<char> {
    match e {
        AppError::NotFound => "Not found"@,
        AppError::Unauthorized => "Unauthorized"@,
        AppError::InvalidToken => "Invalid token"@,
        AppError::BadRequest => "Bad Request"@,
        AppError::Duplicate => "Duplicate"@,
        AppError::InternalServerError => "Internal Server Error"@,
        AppError::ServiceUnavailable => "Service Unavailable"@,
    }
}

/// The status code of each application failure kind.
pub open spec fn app_error_status(e: AppError) -> u16 {
    match e {
        AppError::NotFound => 404,
        AppError::Unauthorized => 401,
        AppError::InvalidToken => 401,
        AppError::BadRequest => 400,
        AppError::Duplicate => 409,
        AppError::InternalServerError => 500,
        AppError::ServiceUnavailable => 503,
    }
}

/// The status code the recovery stage assigns to each failure. A body that
/// failed to decode is reported verbosely (422) only in a debug build;
/// method mismatch is deliberately folded into 404 so that probing a path
/// with the wrong method does not reveal that the route exists.
pub open spec fn recover_status(err: Rejection, debug: bool) -> u16 {
    match err {
        Rejection::App(e) => app_error_status(e),
        Rejection::BodyDecode(_) => if debug { 422 } else { 400 },
        Rejection::MethodNotAllowed => 404,
        Rejection::UnsupportedMediaType => 415,
        Rejection::NotFound => 404,
        Rejection::Unknown => 500,
    }
}

/// The body text the recovery stage assigns to each failure.
pub open spec fn recover_message(err: Rejection, debug: bool) -> Seq<char> {
    match err {
        Rejection::App(e) => app_error_message(e),
        Rejection::BodyDecode(detail) => if debug {
            detail@
        } else {
            "Bad Request"@
        },
        Rejection::MethodNotAllowed => Seq::<char>::empty(),
        Rejection::UnsupportedMediaType => "Unsupported media type"@,
        Rejection::NotFound => Seq::<char>::empty(),
        Rejection::Unknown => "Internal server error"@,
    }
}

impl AppError {
    /// The user-visible text of this failure kind.
    pub fn message(&self) -> (r: String)
        ensures
            r@ == app_error_message(*self),
    {
        match self {
            AppError::NotFound => String::from_str("Not found"),
            AppError::Unauthorized => String::from_str("Unauthorized"),
            AppError::InvalidToken => String::from_str("Invalid token"),
            AppError::BadRequest => String::from_str("Bad Request"),
            AppError::Duplicate => String::from_str("Duplicate"),
            AppError::InternalServerError => String::from_str("Internal Server Error"),
            AppError::ServiceUnavailable => String::from_str("Service Unavailable"),
        }
    }

    /// The status code of this failure kind.
    pub fn status(&self) -> (s: u16)
        ensures
            s == app_error_status(*self),
    {
        match self {
            AppError::NotFound => 404,
            AppError::Unauthorized => 401,
            AppError::InvalidToken => 401,
            AppError::BadRequest => 400,
            AppError::Duplicate => 409,
            AppError::InternalServerError => 500,
            AppError::ServiceUnavailable => 503,
        }
    }
}

/// The recovery stage: converts any failure into exactly one response. It
/// is total over the failure space and never fails itself.
pub fn handle_recover(err: &Rejection, debug: bool) -> (res: Response)
    ensures
        res.status == recover_status(*err, debug),
        res.body@ == recover_message(*err, debug),
{
    match err {
        Rejection::App(e) => Response { status: e.status(), body: e.message() },
        Rejection::BodyDecode(detail) => {
            if debug {
                Response { status: 422, body: detail.clone() }
            } else {
                Response { status: 400, body: String::from_str("Bad Request") }
            }
        },
        Rejection::MethodNotAllowed => Response { status: 404, body: String::new() },
        Rejection::UnsupportedMediaType => {
            Response { status: 415, body: String::from_str("Unsupported media type") }
        },
        Rejection::NotFound => Response { status: 404, body: String::new() },
        Rejection::Unknown => {
            Response { status: 500, body: String::from_str("Internal server error") }
        },
    }
}

} // verus!
