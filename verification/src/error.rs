//! Operating-system errors as the driver sees them.

use vstd::prelude::*;

verus! {

/// What the driver needs to know of an error besides its code.
#[derive(Clone, Copy, Debug, PartialEq, Eq, Structural)]
pub enum ErrorKind {
    /// The call could not make progress without blocking.
    WouldBlock,
    /// The call was started and finishes in the background.
    InProgress,
    /// Any other failure.
    Other,
}

/// An error of the operating system: its raw code, and its kind.
#[derive(Clone, Copy, Debug, PartialEq, Eq, Structural)]
pub struct Error {
    pub kind: ErrorKind,
    pub code: i32,
}

/// The code with which a refused blocking operation is reported.
pub open spec fn busy_code() -> i32 {
    170
}

/// The code with which a canceled operation is reported.
pub open spec fn canceled_code() -> i32 {
    1223
}

/// `windows_sys::Win32::Foundation::ERROR_BUSY`, as the signed code that an
/// error carries. The contract claims the value that the constant has: 170.
#[verifier::external_body]
fn error_busy() -> (code: i32)
    ensures
        code == busy_code(),
{
    windows_sys::Win32::Foundation::ERROR_BUSY as i32
}

/// `windows_sys::Win32::Foundation::ERROR_CANCELLED`, as the signed code that
/// an error carries. The contract claims the value that the constant has:
/// 1223.
#[verifier::external_body]
fn error_cancelled() -> (code: i32)
    ensures
        code == canceled_code(),
{
    windows_sys::Win32::Foundation::ERROR_CANCELLED as i32
}

/// `libc::EINPROGRESS`: the code with which the system that this was built
/// for says that a call goes on in the background. The code differs from
/// system to system, so the contract claims nothing of it.
#[verifier::external_body]
fn in_progress_code() -> (code: i32) {
    libc::EINPROGRESS
}

impl Error {
    /// The error that a raw code stands for when nothing else is known of it.
    pub open spec fn os(code: i32) -> Error {
        Error { kind: ErrorKind::Other, code }
    }

    /// The error of a push that the worker pool refused.
    pub open spec fn spec_busy() -> Error {
        Error::os(busy_code())
    }

    /// The error of a completion that cancellation produced.
    pub open spec fn spec_canceled() -> Error {
        Error::os(canceled_code())
    }

    /// The error of a system call, from its code, from whether the system
    /// counts it as one that would block, and from the code that says that a
    /// call goes on in the background.
    pub open spec fn spec_classify(code: i32, would_block: bool, in_progress: i32) -> Error {
        Error {
            kind: if would_block {
                ErrorKind::WouldBlock
            } else if code == in_progress {
                ErrorKind::InProgress
            } else {
                ErrorKind::Other
            },
            code,
        }
    }

    /// Whether the error only says that the call has not finished yet.
    pub open spec fn spec_would_block(self) -> bool {
        self.kind is WouldBlock || self.kind is InProgress
    }

    pub fn new(kind: ErrorKind, code: i32) -> (e: Error)
        ensures
            e == (Error { kind, code }),
    {
        Error { kind, code }
    }

    pub fn from_raw_os_error(code: i32) -> (e: Error)
        ensures
            e == Error::os(code),
    {
        Error { kind: ErrorKind::Other, code }
    }

    #[verifier::when_used_as_spec(spec_classify)]
    pub fn classify(code: i32, would_block: bool, in_progress: i32) -> (e: Error)
        ensures
            e == Error::spec_classify(code, would_block, in_progress),
    {
        let kind = if would_block {
            ErrorKind::WouldBlock
        } else if code == in_progress {
            ErrorKind::InProgress
        } else {
            ErrorKind::Other
        };
        Error { kind, code }
    }

    /// The error of a system call on the system that this was built for,
    /// from its code and from whether the system counts it as one that would
    /// block. Which code says that a call goes on in the background is the
    /// system's.
    pub fn from_os_error(code: i32, would_block: bool) -> (e: Error)
        ensures
            exists|in_progress: i32| e == #[trigger] Error::spec_classify(
                code,
                would_block,
                in_progress,
            ),
            e.code == code,
            would_block <==> e.kind is WouldBlock,
    {
        Error::classify(code, would_block, in_progress_code())
    }

    pub fn busy() -> (e: Error)
        ensures
            e == Error::spec_busy(),
    {
        Error::from_raw_os_error(error_busy())
    }

    pub fn canceled() -> (e: Error)
        ensures
            e == Error::spec_canceled(),
    {
        Error::from_raw_os_error(error_cancelled())
    }

    pub fn kind(&self) -> (kind: ErrorKind)
        ensures
            kind == self.kind,
    {
        self.kind
    }

    pub fn raw_os_error(&self) -> (code: i32)
        ensures
            code == self.code,
    {
        self.code
    }

    pub fn is_busy(&self) -> (b: bool)
        ensures
            b == (self.code == busy_code()),
    {
        self.code == error_busy()
    }

    pub fn is_canceled(&self) -> (b: bool)
        ensures
            b == (self.code == canceled_code()),
    {
        self.code == error_cancelled()
    }

    #[verifier::when_used_as_spec(spec_would_block)]
    pub fn would_block(self) -> (b: bool)
        ensures
            b == self.spec_would_block(),
    {
        match self.kind {
            ErrorKind::WouldBlock => true,
            ErrorKind::InProgress => true,
            ErrorKind::Other => false,
        }
    }
}

} // verus!
