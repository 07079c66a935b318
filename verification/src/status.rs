//! The outcome of a failed gRPC call, as plain values.
use vstd::prelude::*;

verus! {

/// The gRPC status codes.
#[derive(Clone, Copy, Debug, PartialEq, Eq, Structural)]
pub enum Code {
    /// The call went well (`OK`).
    Okay,
    Cancelled,
    Unknown,
    InvalidArgument,
    DeadlineExceeded,
    NotFound,
    AlreadyExists,
    PermissionDenied,
    ResourceExhausted,
    FailedPrecondition,
    Aborted,
    OutOfRange,
    Unimplemented,
    Internal,
    Unavailable,
    DataLoss,
    Unauthenticated,
}

impl Code {
    /// Both codes say that time ran out: `DeadlineExceeded` at the server, whose `grpc-timeout`
    /// fired, and `Cancelled` at the client, whose channel timeout fired.
    pub open spec fn is_timeout(self) -> bool {
        self is DeadlineExceeded || self is Cancelled
    }
}

/// The status that a failed call ends with.
#[derive(Clone, Debug)]
pub struct Status {
    pub code: Code,
    pub message: String,
}

/// A `Status` with its message as a sequence of characters.
pub struct StatusView {
    pub code: Code,
    pub message: Seq<char>,
}

impl View for Status {
    type V = StatusView;

    open spec fn view(&self) -> StatusView {
        StatusView { code: self.code, message: self.message@ }
    }
}

} // verus!
