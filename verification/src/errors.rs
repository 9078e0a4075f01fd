//! The texts of the error objects that the machine itself produces.
//!
//! An error object holds a short text by which a program can tell what
//! went wrong.
use vstd::prelude::*;

verus! {

/// The mode given to `FileOpen` is none of `r`, `r+`, `w`, `w+`, `a` and `a+`.
pub const IO_INVALID_OPEN_MODE: &'static str = "invalid open mode";

/// The bytes given to `StringFromBytes`, or read by `FileReadLine`, are not UTF-8.
pub const STRING_INVALID_UTF8: &'static str = "invalid UTF-8";

/// The text of an error code as an owned string.
pub fn error_text(code: &'static str) -> (text: String)
    ensures
        text@ == code@,
{
    code.to_owned()
}

/// How an input or output operation failed.
#[derive(Clone, Copy, Debug, PartialEq, Eq, Structural)]
pub enum IoError {
    /// The file or directory does not exist.
    NotFound,
    /// The operation is not permitted.
    PermissionDenied,
    /// The remote side refused the connection.
    ConnectionRefused,
    /// The remote side reset the connection.
    ConnectionReset,
    /// The remote side ended the connection.
    ConnectionAborted,
    /// There is no connection yet.
    NotConnected,
    /// The address is in use.
    AddrInUse,
    /// The address does not exist or is not local.
    AddrNotAvailable,
    /// The pipe was closed.
    BrokenPipe,
    /// The file exists already.
    AlreadyExists,
    /// The operation would have to wait, and was asked not to.
    WouldBlock,
    /// An argument was not valid.
    InvalidInput,
    /// The data was not valid for the operation, such as text that is not UTF-8.
    InvalidData,
    /// The operation took too long.
    TimedOut,
    /// Nothing could be written.
    WriteZero,
    /// The operation was interrupted.
    Interrupted,
    /// The input ended too soon.
    UnexpectedEof,
    /// Any other failure.
    Other,
}

impl IoError {
    /// The text of the error object that a program gets for the failure.
    pub open spec fn text(self) -> Seq<char> {
        match self {
            IoError::NotFound => "not found"@,
            IoError::PermissionDenied => "permission denied"@,
            IoError::ConnectionRefused => "connection refused"@,
            IoError::ConnectionReset => "connection reset"@,
            IoError::ConnectionAborted => "connection aborted"@,
            IoError::NotConnected => "not connected"@,
            IoError::AddrInUse => "address in use"@,
            IoError::AddrNotAvailable => "address not available"@,
            IoError::BrokenPipe => "broken pipe"@,
            IoError::AlreadyExists => "already exists"@,
            IoError::WouldBlock => "would block"@,
            IoError::InvalidInput => "invalid input"@,
            IoError::InvalidData => "invalid data"@,
            IoError::TimedOut => "timed out"@,
            IoError::WriteZero => "write zero"@,
            IoError::Interrupted => "interrupted"@,
            IoError::UnexpectedEof => "unexpected end of file"@,
            IoError::Other => "other"@,
        }
    }

    /// The text of the error object that a program gets for the failure.
    pub fn code(self) -> (code: &'static str)
        ensures
            code@ == self.text(),
    {
        match self {
            IoError::NotFound => "not found",
            IoError::PermissionDenied => "permission denied",
            IoError::ConnectionRefused => "connection refused",
            IoError::ConnectionReset => "connection reset",
            IoError::ConnectionAborted => "connection aborted",
            IoError::NotConnected => "not connected",
            IoError::AddrInUse => "address in use",
            IoError::AddrNotAvailable => "address not available",
            IoError::BrokenPipe => "broken pipe",
            IoError::AlreadyExists => "already exists",
            IoError::WouldBlock => "would block",
            IoError::InvalidInput => "invalid input",
            IoError::InvalidData => "invalid data",
            IoError::TimedOut => "timed out",
            IoError::WriteZero => "write zero",
            IoError::Interrupted => "interrupted",
            IoError::UnexpectedEof => "unexpected end of file",
            IoError::Other => "other",
        }
    }
}

} // verus!
