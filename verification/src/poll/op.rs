//! The built-in operations of the readiness side.
//!
//! Each operation says, when it is submitted, which call it wants made and
//! whether to wait, and, when its descriptor is ready, which call to retry.

use vstd::prelude::*;
use crate::error::Error;
use crate::poll::{ready, spec_ready, Event, Interest, RawFd, Submit, Syscall, Target, WaitArg};
use crate::task::Poll;

verus! {

/// Read a file at an offset into a buffer of `len` bytes.
#[derive(Clone, Copy, Debug, PartialEq, Eq, Structural)]
pub struct ReadAt {
    pub fd: RawFd,
    pub offset: usize,
    pub len: usize,
}

impl ReadAt {
    pub open spec fn call(self) -> Syscall {
        Syscall::Pread { fd: self.fd, len: self.len, offset: self.offset }
    }

    /// Where positioned reads are made at once, read; elsewhere wait until
    /// the file is readable.
    pub fn pre_submit(&self, target: Target) -> (submit: Submit)
        ensures
            submit == if target.spec_positioned_io_at_once() {
                Submit::Run(self.call())
            } else {
                Submit::Wait(WaitArg { fd: self.fd, interest: Interest::Readable })
            },
    {
        if target.positioned_io_at_once() {
            Submit::Run(Syscall::Pread { fd: self.fd, len: self.len, offset: self.offset })
        } else {
            Submit::Wait(WaitArg { fd: self.fd, interest: Interest::Readable })
        }
    }

    pub fn on_event(&self, event: &Event) -> (call: Syscall)
        requires
            event.readable,
        ensures
            call == self.call(),
    {
        Syscall::Pread { fd: self.fd, len: self.len, offset: self.offset }
    }
}

/// Write `len` bytes of a buffer to a file at an offset.
#[derive(Clone, Copy, Debug, PartialEq, Eq, Structural)]
pub struct WriteAt {
    pub fd: RawFd,
    pub offset: usize,
    pub len: usize,
}

impl WriteAt {
    pub open spec fn call(self) -> Syscall {
        Syscall::Pwrite { fd: self.fd, len: self.len, offset: self.offset }
    }

    /// Where positioned writes are made at once, write; elsewhere wait until
    /// the file is writable.
    pub fn pre_submit(&self, target: Target) -> (submit: Submit)
        ensures
            submit == if target.spec_positioned_io_at_once() {
                Submit::Run(self.call())
            } else {
                Submit::Wait(WaitArg { fd: self.fd, interest: Interest::Writable })
            },
    {
        if target.positioned_io_at_once() {
            Submit::Run(Syscall::Pwrite { fd: self.fd, len: self.len, offset: self.offset })
        } else {
            Submit::Wait(WaitArg { fd: self.fd, interest: Interest::Writable })
        }
    }

    pub fn on_event(&self, event: &Event) -> (call: Syscall)
        requires
            event.writable,
        ensures
            call == self.call(),
    {
        Syscall::Pwrite { fd: self.fd, len: self.len, offset: self.offset }
    }
}

/// Sync data to the disk. It is never waited for.
#[derive(Clone, Copy, Debug, PartialEq, Eq, Structural)]
pub struct Sync {
    pub fd: RawFd,
}

impl Sync {
    pub fn pre_submit(&self) -> (submit: Submit)
        ensures
            submit == Submit::Run(Syscall::Fsync { fd: self.fd }),
    {
        Submit::Run(Syscall::Fsync { fd: self.fd })
    }
}

/// Accept a connection.
#[derive(Clone, Copy, Debug, PartialEq, Eq, Structural)]
pub struct Accept {
    pub fd: RawFd,
}

impl Accept {
    pub fn pre_submit(&self) -> (submit: Submit)
        ensures
            submit == Submit::Try(
                Syscall::Accept { fd: self.fd },
                WaitArg { fd: self.fd, interest: Interest::Readable },
            ),
    {
        Submit::Try(
            Syscall::Accept { fd: self.fd },
            WaitArg { fd: self.fd, interest: Interest::Readable },
        )
    }

    pub fn on_event(&self, event: &Event) -> (call: Syscall)
        requires
            event.readable,
        ensures
            call == (Syscall::Accept { fd: self.fd }),
    {
        Syscall::Accept { fd: self.fd }
    }
}

/// Connect to a remote address.
#[derive(Clone, Copy, Debug, PartialEq, Eq, Structural)]
pub struct Connect {
    pub fd: RawFd,
}

impl Connect {
    /// How a connection attempt ended, from the answer to reading the
    /// socket's pending error and the error code that was read: the failure
    /// to read it, success on code zero, and the error of the code otherwise.
    pub open spec fn spec_connected(outcome: Result<usize, Error>, code: i32) -> Poll<
        Result<usize, Error>,
    > {
        match outcome {
            Err(e) => Poll::Ready(Err(e)),
            Ok(_) => if code == 0 {
                Poll::Ready(Ok(0))
            } else {
                Poll::Ready(Err(Error::os(code)))
            },
        }
    }

    pub fn pre_submit(&self) -> (submit: Submit)
        ensures
            submit == Submit::Try(
                Syscall::Connect { fd: self.fd },
                WaitArg { fd: self.fd, interest: Interest::Writable },
            ),
    {
        Submit::Try(
            Syscall::Connect { fd: self.fd },
            WaitArg { fd: self.fd, interest: Interest::Writable },
        )
    }

    /// Once the socket is writable the attempt is over: what is left is to
    /// read how it ended.
    pub fn on_event(&self, event: &Event) -> (call: Syscall)
        requires
            event.writable,
        ensures
            call == (Syscall::SocketError { fd: self.fd }),
    {
        Syscall::SocketError { fd: self.fd }
    }

    #[verifier::when_used_as_spec(spec_connected)]
    pub fn connected(outcome: Result<usize, Error>, code: i32) -> (answer: Poll<
        Result<usize, Error>,
    >)
        ensures
            answer == Connect::spec_connected(outcome, code),
    {
        match outcome {
            Err(e) => Poll::Ready(Err(e)),
            Ok(_) => if code == 0 {
                Poll::Ready(Ok(0))
            } else {
                Poll::Ready(Err(Error::from_raw_os_error(code)))
            },
        }
    }
}

/// What a call that was made for a ready descriptor comes to, from its
/// answer and, where it read the pending error of a socket, from the code
/// that it read: the end of the connection attempt for that call, and the
/// answer to a retried call for every other.
pub open spec fn spec_retried(call: Syscall, outcome: Result<usize, Error>, code: i32) -> Poll<
    Result<usize, Error>,
> {
    if call is SocketError {
        Connect::spec_connected(outcome, code)
    } else {
        spec_ready(outcome)
    }
}

#[verifier::when_used_as_spec(spec_retried)]
pub fn retried(call: Syscall, outcome: Result<usize, Error>, code: i32) -> (answer: Poll<
    Result<usize, Error>,
>)
    ensures
        answer == spec_retried(call, outcome, code),
{
    match call {
        Syscall::SocketError { .. } => Connect::connected(outcome, code),
        _ => ready(outcome),
    }
}

/// Receive data from a socket into `slices` buffers.
#[derive(Clone, Copy, Debug, PartialEq, Eq, Structural)]
pub struct RecvImpl {
    pub fd: RawFd,
    pub slices: usize,
}

impl RecvImpl {
    pub fn pre_submit(&self) -> (submit: Submit)
        ensures
            submit == Submit::Wait(WaitArg { fd: self.fd, interest: Interest::Readable }),
    {
        Submit::Wait(WaitArg { fd: self.fd, interest: Interest::Readable })
    }

    pub fn on_event(&self, event: &Event) -> (call: Syscall)
        requires
            event.readable,
        ensures
            call == (Syscall::Readv { fd: self.fd, slices: self.slices }),
    {
        Syscall::Readv { fd: self.fd, slices: self.slices }
    }
}

/// Send data to a socket from `slices` buffers.
#[derive(Clone, Copy, Debug, PartialEq, Eq, Structural)]
pub struct SendImpl {
    pub fd: RawFd,
    pub slices: usize,
}

impl SendImpl {
    pub fn pre_submit(&self) -> (submit: Submit)
        ensures
            submit == Submit::Wait(WaitArg { fd: self.fd, interest: Interest::Writable }),
    {
        Submit::Wait(WaitArg { fd: self.fd, interest: Interest::Writable })
    }

    pub fn on_event(&self, event: &Event) -> (call: Syscall)
        requires
            event.writable,
        ensures
            call == (Syscall::Writev { fd: self.fd, slices: self.slices }),
    {
        Syscall::Writev { fd: self.fd, slices: self.slices }
    }
}

/// Receive data and the source address.
#[derive(Clone, Copy, Debug, PartialEq, Eq, Structural)]
pub struct RecvFromImpl {
    pub fd: RawFd,
}

impl RecvFromImpl {
    pub fn pre_submit(&self) -> (submit: Submit)
        ensures
            submit == Submit::Try(
                Syscall::Recvmsg { fd: self.fd },
                WaitArg { fd: self.fd, interest: Interest::Readable },
            ),
    {
        Submit::Try(
            Syscall::Recvmsg { fd: self.fd },
            WaitArg { fd: self.fd, interest: Interest::Readable },
        )
    }

    pub fn on_event(&self, event: &Event) -> (call: Syscall)
        requires
            event.readable,
        ensures
            call == (Syscall::Recvmsg { fd: self.fd }),
    {
        Syscall::Recvmsg { fd: self.fd }
    }
}

/// Send data to a given address.
#[derive(Clone, Copy, Debug, PartialEq, Eq, Structural)]
pub struct SendToImpl {
    pub fd: RawFd,
}

impl SendToImpl {
    pub fn pre_submit(&self) -> (submit: Submit)
        ensures
            submit == Submit::Try(
                Syscall::Sendmsg { fd: self.fd },
                WaitArg { fd: self.fd, interest: Interest::Writable },
            ),
    {
        Submit::Try(
            Syscall::Sendmsg { fd: self.fd },
            WaitArg { fd: self.fd, interest: Interest::Writable },
        )
    }

    pub fn on_event(&self, event: &Event) -> (call: Syscall)
        requires
            event.writable,
        ensures
            call == (Syscall::Sendmsg { fd: self.fd }),
    {
        Syscall::Sendmsg { fd: self.fd }
    }
}

} // verus!
