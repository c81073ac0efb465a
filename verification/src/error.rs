//! Errors reported by the client, and the status codes the server may return.

use crate::model::{option_view, seq_view};
use std::time::Duration;
use vstd::prelude::*;

verus! {

/// Details a server may attach to a rejected request.
#[derive(Debug, Clone, PartialEq, Eq, Hash)]
pub struct SpiceDbErrorDetails {
    /// The server's machine-readable reason, if present.
    pub error_reason: Option<String>,
    /// Human-readable debug information from the server.
    pub debug_message: Option<String>,
    /// Suggested retry delay, if the server provided one.
    pub retry_info: Option<Duration>,
}

/// Mathematical model of [`SpiceDbErrorDetails`].
pub struct SpiceDbErrorDetailsView {
    pub error_reason: Option<Seq<char>>,
    pub debug_message: Option<Seq<char>>,
    pub retry_info: Option<Duration>,
}

impl View for SpiceDbErrorDetails {
    type V = SpiceDbErrorDetailsView;

    open spec fn view(&self) -> SpiceDbErrorDetailsView {
        SpiceDbErrorDetailsView {
            error_reason: option_view(self.error_reason),
            debug_message: option_view(self.debug_message),
            retry_info: self.retry_info,
        }
    }
}

/// The status code classifying a server-rejected request.
#[derive(Debug, Clone, Copy, PartialEq, Eq, Hash)]
pub enum Code {
    /// The operation completed successfully.
    Okay,
    /// The operation was cancelled.
    Cancelled,
    /// Unknown error.
    Unknown,
    /// The client specified an invalid argument.
    InvalidArgument,
    /// The deadline expired before the operation could complete.
    DeadlineExceeded,
    /// Some requested entity was not found.
    NotFound,
    /// The entity that was to be created already exists.
    AlreadyExists,
    /// The caller lacks permission for the operation.
    PermissionDenied,
    /// Some resource has been exhausted.
    ResourceExhausted,
    /// The system is not in a state required for the operation.
    FailedPrecondition,
    /// The operation was aborted.
    Aborted,
    /// The operation was attempted past the valid range.
    OutOfRange,
    /// The operation is not implemented or not supported.
    Unimplemented,
    /// Internal error.
    Internal,
    /// The service is currently unavailable.
    Unavailable,
    /// Unrecoverable data loss or corruption.
    DataLoss,
    /// The request lacks valid authentication credentials.
    Unauthenticated,
}

/// The code that stands for a number between 0 and 16.
pub open spec fn code_of_number(n: int) -> Code {
    if n == 0 {
        Code::Okay
    } else if n == 1 {
        Code::Cancelled
    } else if n == 2 {
        Code::Unknown
    } else if n == 3 {
        Code::InvalidArgument
    } else if n == 4 {
        Code::DeadlineExceeded
    } else if n == 5 {
        Code::NotFound
    } else if n == 6 {
        Code::AlreadyExists
    } else if n == 7 {
        Code::PermissionDenied
    } else if n == 8 {
        Code::ResourceExhausted
    } else if n == 9 {
        Code::FailedPrecondition
    } else if n == 10 {
        Code::Aborted
    } else if n == 11 {
        Code::OutOfRange
    } else if n == 12 {
        Code::Unimplemented
    } else if n == 13 {
        Code::Internal
    } else if n == 14 {
        Code::Unavailable
    } else if n == 15 {
        Code::DataLoss
    } else {
        Code::Unauthenticated
    }
}

/// The number that stands for a code on the wire.
pub open spec fn number_of_code(c: Code) -> int {
    match c {
        Code::Okay => 0,
        Code::Cancelled => 1,
        Code::Unknown => 2,
        Code::InvalidArgument => 3,
        Code::DeadlineExceeded => 4,
        Code::NotFound => 5,
        Code::AlreadyExists => 6,
        Code::PermissionDenied => 7,
        Code::ResourceExhausted => 8,
        Code::FailedPrecondition => 9,
        Code::Aborted => 10,
        Code::OutOfRange => 11,
        Code::Unimplemented => 12,
        Code::Internal => 13,
        Code::Unavailable => 14,
        Code::DataLoss => 15,
        Code::Unauthenticated => 16,
    }
}

/// The number of the code that an arbitrary wire integer is read as: the
/// integer itself when it names a code, otherwise the number of `Unknown`.
pub open spec fn known_code_number(value: int) -> int {
    if 0 <= value <= 16 {
        value
    } else {
        2
    }
}

/// Calls `tonic::Code::from_i32` and hands back the number of the code it
/// chose (through tonic's `From<Code> for i32`).
///
/// Trusted: tonic maps 0 through 16 to the code with that number and every
/// other integer to `Code::Unknown`, whose number is 2.
#[verifier::external_body]
fn tonic_code_number(value: i32) -> (n: i32)
    ensures
        n == known_code_number(value as int),
{
    i32::from(tonic::Code::from_i32(value))
}

impl Code {
    /// Reads a wire integer as a status code; integers that name no code are
    /// read as [`Code::Unknown`].
    pub fn from_i32(value: i32) -> (c: Code)
        ensures
            c == code_of_number(known_code_number(value as int)),
    {
        let n = tonic_code_number(value);
        if n == 0 {
            Code::Okay
        } else if n == 1 {
            Code::Cancelled
        } else if n == 2 {
            Code::Unknown
        } else if n == 3 {
            Code::InvalidArgument
        } else if n == 4 {
            Code::DeadlineExceeded
        } else if n == 5 {
            Code::NotFound
        } else if n == 6 {
            Code::AlreadyExists
        } else if n == 7 {
            Code::PermissionDenied
        } else if n == 8 {
            Code::ResourceExhausted
        } else if n == 9 {
            Code::FailedPrecondition
        } else if n == 10 {
            Code::Aborted
        } else if n == 11 {
            Code::OutOfRange
        } else if n == 12 {
            Code::Unimplemented
        } else if n == 13 {
            Code::Internal
        } else if n == 14 {
            Code::Unavailable
        } else if n == 15 {
            Code::DataLoss
        } else {
            Code::Unauthenticated
        }
    }

    /// The number that stands for this code on the wire.
    pub fn to_i32(self) -> (n: i32)
        ensures
            n == number_of_code(self),
    {
        match self {
            Code::Okay => 0,
            Code::Cancelled => 1,
            Code::Unknown => 2,
            Code::InvalidArgument => 3,
            Code::DeadlineExceeded => 4,
            Code::NotFound => 5,
            Code::AlreadyExists => 6,
            Code::PermissionDenied => 7,
            Code::ResourceExhausted => 8,
            Code::FailedPrecondition => 9,
            Code::Aborted => 10,
            Code::OutOfRange => 11,
            Code::Unimplemented => 12,
            Code::Internal => 13,
            Code::Unavailable => 14,
            Code::DataLoss => 15,
            Code::Unauthenticated => 16,
        }
    }
}

/// Errors returned by the client.
#[derive(Debug, Clone, PartialEq, Eq)]
pub enum Error {
    /// Connection-level failure reported by the transport, with its message.
    Transport(String),
    /// A request the server rejected, classified by status code.
    Status {
        /// The status code.
        code: Code,
        /// Human-readable message from the server.
        message: String,
        /// Decoded server-specific details, if available.
        details: Option<SpiceDbErrorDetails>,
    },
    /// Local validation failure, raised before any request is sent.
    InvalidArgument(String),
    /// A malformed or incomplete wire message.
    Serialization(String),
    /// Raised by [`PermissionResult::is_allowed`](crate::PermissionResult::is_allowed)
    /// for a conditional result.
    ConditionalPermission {
        /// The context fields that were missing.
        missing_fields: Vec<String>,
    },
}

/// Mathematical model of [`Error`].
pub enum ErrorView {
    Transport(Seq<char>),
    Status { code: Code, message: Seq<char>, details: Option<SpiceDbErrorDetailsView> },
    InvalidArgument(Seq<char>),
    Serialization(Seq<char>),
    ConditionalPermission { missing_fields: Seq<Seq<char>> },
}

impl View for Error {
    type V = ErrorView;

    open spec fn view(&self) -> ErrorView {
        match self {
            Error::Transport(m) => ErrorView::Transport(m@),
            Error::Status { code, message, details } => ErrorView::Status {
                code: *code,
                message: message@,
                details: option_view(*details),
            },
            Error::InvalidArgument(m) => ErrorView::InvalidArgument(m@),
            Error::Serialization(m) => ErrorView::Serialization(m@),
            Error::ConditionalPermission { missing_fields } => ErrorView::ConditionalPermission {
                missing_fields: seq_view(missing_fields@),
            },
        }
    }
}

impl ErrorView {
    /// Whether a request that failed with this error may succeed when retried:
    /// exactly the statuses `Unavailable` and `DeadlineExceeded`.
    pub open spec fn is_retryable(self) -> bool {
        match self {
            ErrorView::Status { code, .. } => code == Code::Unavailable || code
                == Code::DeadlineExceeded,
            _ => false,
        }
    }

    /// The status code, for a status error.
    pub open spec fn code(self) -> Option<Code> {
        match self {
            ErrorView::Status { code, .. } => Some(code),
            _ => None,
        }
    }
}

/// The error that a status with the given wire code and message stands for.
pub open spec fn status_error(code: i32, message: Seq<char>) -> ErrorView {
    ErrorView::Status {
        code: code_of_number(known_code_number(code as int)),
        message,
        details: None,
    }
}

/// The view of a result whose error is an [`Error`].
pub open spec fn result_view<T: View>(r: Result<T, Error>) -> Result<T::V, ErrorView> {
    match r {
        Ok(v) => Ok(v@),
        Err(e) => Err(e@),
    }
}

impl Error {
    /// Returns `true` if the error is likely transient and the request may
    /// succeed if retried.
    pub fn is_retryable(&self) -> (r: bool)
        ensures
            r == self@.is_retryable(),
    {
        match self {
            Error::Status { code, .. } => match code {
                Code::Unavailable => true,
                Code::DeadlineExceeded => true,
                _ => false,
            },
            _ => false,
        }
    }

    /// Returns the status code if this is a `Status` error.
    pub fn code(&self) -> (r: Option<Code>)
        ensures
            r == self@.code(),
    {
        match self {
            Error::Status { code, .. } => Some(*code),
            _ => None,
        }
    }

    /// The error for a status reported by the server or the transport.
    pub fn from_status(code: Code, message: String) -> (e: Error)
        ensures
            e@ == (ErrorView::Status { code, message: message@, details: None }),
    {
        Error::Status { code, message, details: None }
    }

    /// The error for a status given by its wire code; a code that names no
    /// status is read as [`Code::Unknown`].
    pub fn from_status_code(code: i32, message: String) -> (e: Error)
        ensures
            e@ == status_error(code, message@),
    {
        Error::Status { code: Code::from_i32(code), message, details: None }
    }

    /// A local validation failure with the given message.
    pub fn invalid_argument(message: &str) -> (e: Error)
        ensures
            e@ == ErrorView::InvalidArgument(message@),
    {
        Error::InvalidArgument(message.to_owned())
    }

    /// A decode failure with the given message.
    pub fn serialization(message: &str) -> (e: Error)
        ensures
            e@ == ErrorView::Serialization(message@),
    {
        Error::Serialization(message.to_owned())
    }
}

} // verus!
