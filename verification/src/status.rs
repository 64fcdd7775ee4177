//! gRPC status codes and how the client reads a failed call: as a lost
//! connection, as a handle or query the server no longer knows, or as a
//! failure of the request itself.

use vstd::prelude::*;

verus! {

/// The canonical gRPC status codes.
#[derive(Debug, Clone, Copy, PartialEq, Eq, Structural)]
pub enum StatusCode {
    /// The call succeeded: gRPC calls this code `OK`.
    Success,
    Cancelled,
    Unknown,
    InvalidArgument,
    DeadlineExceeded,
    NotFound,
    AlreadyExists,
    PermissionDenied,
    ResourceExhausted,
    FailedPrecondition,
    Aborted,
    OutOfRange,
    Unimplemented,
    Internal,
    Unavailable,
    DataLoss,
    Unauthenticated,
}

/// The number gRPC gives each status code.
pub open spec fn spec_code_number(code: StatusCode) -> i32 {
    match code {
        StatusCode::Success => 0,
        StatusCode::Cancelled => 1,
        StatusCode::Unknown => 2,
        StatusCode::InvalidArgument => 3,
        StatusCode::DeadlineExceeded => 4,
        StatusCode::NotFound => 5,
        StatusCode::AlreadyExists => 6,
        StatusCode::PermissionDenied => 7,
        StatusCode::ResourceExhausted => 8,
        StatusCode::FailedPrecondition => 9,
        StatusCode::Aborted => 10,
        StatusCode::OutOfRange => 11,
        StatusCode::Unimplemented => 12,
        StatusCode::Internal => 13,
        StatusCode::Unavailable => 14,
        StatusCode::DataLoss => 15,
        StatusCode::Unauthenticated => 16,
    }
}

impl StatusCode {
    /// The code's number on the wire.
    pub fn number(&self) -> (n: i32)
        ensures
            n == spec_code_number(*self),
    {
        match self {
            StatusCode::Success => 0,
            StatusCode::Cancelled => 1,
            StatusCode::Unknown => 2,
            StatusCode::InvalidArgument => 3,
            StatusCode::DeadlineExceeded => 4,
            StatusCode::NotFound => 5,
            StatusCode::AlreadyExists => 6,
            StatusCode::PermissionDenied => 7,
            StatusCode::ResourceExhausted => 8,
            StatusCode::FailedPrecondition => 9,
            StatusCode::Aborted => 10,
            StatusCode::OutOfRange => 11,
            StatusCode::Unimplemented => 12,
            StatusCode::Internal => 13,
            StatusCode::Unavailable => 14,
            StatusCode::DataLoss => 15,
            StatusCode::Unauthenticated => 16,
        }
    }
}

/// A failed gRPC call: its code and message.
#[derive(Debug, Clone)]
pub struct GrpcStatus {
    pub code: StatusCode,
    pub message: String,
}

/// The codes that mean the connection to the server was lost.
pub open spec fn spec_is_disconnect(code: StatusCode) -> bool {
    code == StatusCode::Unavailable || code == StatusCode::Unknown || code
        == StatusCode::Cancelled
}

/// The codes that mean the server no longer knows the handle or query.
pub open spec fn spec_is_stale(code: StatusCode) -> bool {
    code == StatusCode::NotFound || code == StatusCode::PermissionDenied
}

/// The call failed because the connection to the server was lost.
pub fn is_disconnect_status(status: &GrpcStatus) -> (r: bool)
    ensures
        r == spec_is_disconnect(status.code),
        r <==> (status.code == StatusCode::Unavailable || status.code == StatusCode::Unknown
            || status.code == StatusCode::Cancelled),
{
    match status.code {
        StatusCode::Unavailable | StatusCode::Unknown | StatusCode::Cancelled => true,
        _ => false,
    }
}

/// The call failed because the server no longer knows the handle or query.
pub fn is_stale_status(status: &GrpcStatus) -> (r: bool)
    ensures
        r == spec_is_stale(status.code),
        r <==> (status.code == StatusCode::NotFound || status.code == StatusCode::PermissionDenied),
{
    match status.code {
        StatusCode::NotFound | StatusCode::PermissionDenied => true,
        _ => false,
    }
}

/// A status of the given code and message.
pub fn status(code: StatusCode, message: &str) -> (s: GrpcStatus)
    ensures
        s.code == code,
        s.message@ == message@,
{
    GrpcStatus { code, message: String::from_str(message) }
}

/// No status is both a lost connection and a stale handle, so the client
/// never both retries on a new connection and forgets a handle for one
/// failure.
pub proof fn lemma_disconnect_and_stale_disjoint(code: StatusCode)
    ensures
        !(spec_is_disconnect(code) && spec_is_stale(code)),
{
}

/// A failure means the connection was lost for exactly three codes:
/// `Unavailable`, `Unknown` and `Cancelled`. Every other code, `OutOfRange`
/// and `DeadlineExceeded` among them, leaves the connection in place.
pub proof fn lemma_lost_connection_codes(code: StatusCode)
    ensures
        spec_is_disconnect(code) <==> (code == StatusCode::Unavailable || code
            == StatusCode::Unknown || code == StatusCode::Cancelled),
        !spec_is_disconnect(StatusCode::OutOfRange),
        !spec_is_disconnect(StatusCode::DeadlineExceeded),
        !spec_is_disconnect(StatusCode::Success),
{
}

/// A failure means the server no longer knows the handle or query for
/// exactly two codes: `NotFound` and `PermissionDenied`.
pub proof fn lemma_stale_codes(code: StatusCode)
    ensures
        spec_is_stale(code) <==> (code == StatusCode::NotFound || code
            == StatusCode::PermissionDenied),
{
}

/// Each code has its own number, from 0 for success to 16.
pub proof fn lemma_code_numbers_distinct(a: StatusCode, b: StatusCode)
    ensures
        0 <= spec_code_number(a) <= 16,
        a != b ==> spec_code_number(a) != spec_code_number(b),
        spec_code_number(StatusCode::Success) == 0,
        spec_code_number(StatusCode::Cancelled) == 1,
        spec_code_number(StatusCode::Unknown) == 2,
        spec_code_number(StatusCode::InvalidArgument) == 3,
        spec_code_number(StatusCode::DeadlineExceeded) == 4,
        spec_code_number(StatusCode::NotFound) == 5,
        spec_code_number(StatusCode::AlreadyExists) == 6,
        spec_code_number(StatusCode::PermissionDenied) == 7,
        spec_code_number(StatusCode::ResourceExhausted) == 8,
        spec_code_number(StatusCode::FailedPrecondition) == 9,
        spec_code_number(StatusCode::Aborted) == 10,
        spec_code_number(StatusCode::OutOfRange) == 11,
        spec_code_number(StatusCode::Unimplemented) == 12,
        spec_code_number(StatusCode::Internal) == 13,
        spec_code_number(StatusCode::Unavailable) == 14,
        spec_code_number(StatusCode::DataLoss) == 15,
        spec_code_number(StatusCode::Unauthenticated) == 16,
{
}

} // verus!
