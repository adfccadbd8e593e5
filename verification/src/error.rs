//! Errors, and the conventions by which the operating system reports them.

use vstd::prelude::*;

verus! {

/// What a handler callback asks the message loop to do next.
#[derive(Clone, Copy, Debug, PartialEq, Eq, Structural)]
pub enum LoopAction {
    /// Keep running the message loop.
    Continue,
    /// Leave the message loop.
    Exit,
}

/// A failed input or output operation.
#[derive(Clone, Copy, Debug, PartialEq, Eq, Structural)]
pub enum IoError {
    /// The operating system reported this error number.
    Os(i32),
    /// A pipe was named by a path that has no final component in UTF-8.
    InvalidPipeName,
    /// A client announced a crash with a buffer of the wrong size.
    IncorrectBufferSize,
    /// A failure without an error number; the driver of the loop holds it.
    Driver,
}

/// Why a server could not be set up, or stopped running.
#[derive(Clone, Copy, Debug, PartialEq, Eq, Structural)]
pub enum ServerError {
    /// An input or output operation failed.
    Io(IoError),
    /// The socket name cannot be turned into an address.
    InvalidName,
    /// The socket name cannot name a Mach port.
    InvalidPortName,
    /// The process behind a connection is unknown, or is not the one that the
    /// crash request speaks of.
    UnknownClientPid,
    /// A message of `len` bytes was too short to read `size` bytes from.
    Scroll { size: usize, len: usize },
    /// A Mach port operation failed; the driver of the loop holds the details.
    Port,
    /// Writing the minidump failed; the driver of the loop holds the details.
    Writer,
}

impl IoError {
    /// What the error says to a reader, where it carries a text of its own.
    pub fn message(&self) -> (text: Option<&'static str>)
        ensures
            match *self {
                IoError::InvalidPipeName => text matches Some(t) && t@ == "invalid pipe name"@,
                IoError::IncorrectBufferSize => text matches Some(t) && t@
                    == "client sent an incorrectly sized buffer"@,
                _ => text is None,
            },
    {
        match self {
            IoError::InvalidPipeName => Some("invalid pipe name"),
            IoError::IncorrectBufferSize => Some("client sent an incorrectly sized buffer"),
            _ => None,
        }
    }

    /// The error that the number `code`, as the system call left it, stands for.
    pub fn from_code(code: u32) -> (error: IoError)
        ensures
            error == IoError::Os(code as i32),
    {
        IoError::Os(code as i32)
    }

    /// The error of a system call that left this number, if it left one.
    pub fn from_number(number: Option<i32>) -> (error: IoError)
        ensures
            error == match number {
                Some(n) => IoError::Os(n),
                None => IoError::Driver,
            },
    {
        match number {
            Some(n) => IoError::Os(n),
            None => IoError::Driver,
        }
    }
}

/// Calls `std::io::Error::last_os_error`, which reads the error number of the
/// last system call of this thread, and hands out that number. Which number it
/// is depends on the machine; that there is one, `raw_os_error` documents for
/// every error that was made this way.
#[verifier::external_body]
fn last_os_error() -> (code: Option<i32>)
    ensures
        code is Some,
{
    std::io::Error::last_os_error().raw_os_error()
}

/// The error of the last system call of this thread. It is always an error
/// number of the operating system; which one, only the system knows.
pub fn last_error() -> (error: IoError)
    ensures
        error is Os,
{
    IoError::from_number(last_os_error())
}

/// Reads the `BOOL` that a Win32 call returned: zero is a failure, whose error
/// number is that of the last system call, and anything else a success.
pub fn win32_ok(result: i32) -> (outcome: Result<(), IoError>)
    ensures
        outcome is Ok <==> result != 0,
        outcome matches Err(error) ==> error is Os,
{
    if result == 0 {
        Err(last_error())
    } else {
        Ok(())
    }
}

} // verus!
