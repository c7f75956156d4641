//! The status of a request trace, told from the status of its response.

use vstd::prelude::*;
use vstd::string::*;

verus! {

/// How a traced request ended.
#[derive(Clone, Copy, Debug, PartialEq, Eq, Structural)]
pub enum SpanStatus {
    Okay,
    Unauthenticated,
    PermissionDenied,
    NotFound,
    ResourceExhausted,
    InvalidArgument,
    Unimplemented,
    Unavailable,
    InternalError,
    UnknownError,
}

/// The trace status that stands for the HTTP status `code`.
///
/// Four client errors and two server errors have a status of their own;
/// every other client error is an invalid argument, a conflict among
/// them, and every other server error an internal error. A success is
/// fine, and anything else is not known.
pub open spec fn status_of(code: int) -> SpanStatus {
    if code == 401 {
        SpanStatus::Unauthenticated
    } else if code == 403 {
        SpanStatus::PermissionDenied
    } else if code == 404 {
        SpanStatus::NotFound
    } else if code == 429 {
        SpanStatus::ResourceExhausted
    } else if 400 <= code < 500 {
        SpanStatus::InvalidArgument
    } else if code == 501 {
        SpanStatus::Unimplemented
    } else if code == 503 {
        SpanStatus::Unavailable
    } else if 500 <= code < 600 {
        SpanStatus::InternalError
    } else if 200 <= code < 300 {
        SpanStatus::Okay
    } else {
        SpanStatus::UnknownError
    }
}

/// Tells the status of a trace from the HTTP status of its response.
pub fn map_status(code: u16) -> (status: SpanStatus)
    ensures
        status == status_of(code as int),
{
    match code {
        401 => SpanStatus::Unauthenticated,
        403 => SpanStatus::PermissionDenied,
        404 => SpanStatus::NotFound,
        429 => SpanStatus::ResourceExhausted,
        400..=499 => SpanStatus::InvalidArgument,
        501 => SpanStatus::Unimplemented,
        503 => SpanStatus::Unavailable,
        500..=599 => SpanStatus::InternalError,
        200..=299 => SpanStatus::Okay,
        _ => SpanStatus::UnknownError,
    }
}

/// The status with which a trace is finished: the one it has, or, where it
/// has none yet, the one that stands for the HTTP status `code`.
pub fn finished_status(current: Option<SpanStatus>, code: u16) -> (status: SpanStatus)
    ensures
        status == match current {
            Some(set) => set,
            None => status_of(code as int),
        },
{
    match current {
        Some(set) => set,
        None => map_status(code),
    }
}

/// The name of the trace of a request: its method, a space, and the path
/// of its URI.
pub fn transaction_name(method: &str, path: &str) -> (name: String)
    ensures
        name@ == method@ + " "@ + path@,
{
    String::from_str(method).concat(" ").concat(path)
}

} // verus!
