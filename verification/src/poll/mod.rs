//! The readiness side: what an operation decides where the kernel only says
//! when a descriptor can make progress.
//!
//! An operation here never calls the kernel. It says which call it wants
//! made, and decides what follows from the answer.

use vstd::prelude::*;
use crate::error::Error;
use crate::task::Poll;

pub mod op;

verus! {

/// A file descriptor.
pub type RawFd = i32;

/// The direction in which a descriptor is waited for.
#[derive(Clone, Copy, Debug, PartialEq, Eq, Structural)]
pub enum Interest {
    Readable,
    Writable,
}

/// What to wait for: a descriptor, and a direction.
#[derive(Clone, Copy, Debug, PartialEq, Eq, Structural)]
pub struct WaitArg {
    pub fd: RawFd,
    pub interest: Interest,
}

/// What a submitted operation needs next.
#[derive(Clone, Copy, Debug, PartialEq, Eq, Structural)]
pub enum Decision {
    /// Nothing: it completed with this many bytes.
    Completed(usize),
    /// To be told when the descriptor is ready.
    Wait(WaitArg),
}

impl Decision {
    pub fn wait_for(fd: RawFd, interest: Interest) -> (d: Decision)
        ensures
            d == Decision::Wait(WaitArg { fd, interest }),
    {
        Decision::Wait(WaitArg { fd, interest })
    }

    pub fn wait_readable(fd: RawFd) -> (d: Decision)
        ensures
            d == Decision::Wait(WaitArg { fd, interest: Interest::Readable }),
    {
        Decision::wait_for(fd, Interest::Readable)
    }

    pub fn wait_writable(fd: RawFd) -> (d: Decision)
        ensures
            d == Decision::Wait(WaitArg { fd, interest: Interest::Writable }),
    {
        Decision::wait_for(fd, Interest::Writable)
    }
}

/// What the poller reports of a registered descriptor.
#[derive(Clone, Copy, Debug, PartialEq, Eq, Structural)]
pub struct Event {
    /// The identifier that the interest was registered under.
    pub key: usize,
    /// Can it do a read operation without blocking?
    pub readable: bool,
    /// Can it do a write operation without blocking?
    pub writable: bool,
}

impl Event {
    pub open spec fn ready_for(self, interest: Interest) -> bool {
        match interest {
            Interest::Readable => self.readable,
            Interest::Writable => self.writable,
        }
    }

    pub fn new(key: usize, readable: bool, writable: bool) -> (event: Event)
        ensures
            event == (Event { key, readable, writable }),
    {
        Event { key, readable, writable }
    }

    pub fn is_ready_for(&self, interest: Interest) -> (ready: bool)
        ensures
            ready == self.ready_for(interest),
    {
        match interest {
            Interest::Readable => self.readable,
            Interest::Writable => self.writable,
        }
    }
}

/// The systems that the readiness side tells apart.
#[derive(Clone, Copy, Debug, PartialEq, Eq, Structural)]
pub enum Target {
    Linux,
    Android,
    Illumos,
    Other,
}

impl Target {
    /// Whether a read or write at an offset is made at once, without
    /// waiting for the descriptor first.
    pub open spec fn spec_positioned_io_at_once(self) -> bool {
        self is Linux || self is Android || self is Illumos
    }

    #[verifier::when_used_as_spec(spec_positioned_io_at_once)]
    pub fn positioned_io_at_once(self) -> (at_once: bool)
        ensures
            at_once == self.spec_positioned_io_at_once(),
    {
        match self {
            Target::Linux => true,
            Target::Android => true,
            Target::Illumos => true,
            Target::Other => false,
        }
    }
}

/// A system call that an operation wants made, with what the driver knows of
/// its arguments. Buffers and addresses stay with whoever makes the call.
#[derive(Clone, Copy, Debug, PartialEq, Eq, Structural)]
pub enum Syscall {
    Pread { fd: RawFd, len: usize, offset: usize },
    Pwrite { fd: RawFd, len: usize, offset: usize },
    Fsync { fd: RawFd },
    Accept { fd: RawFd },
    Connect { fd: RawFd },
    /// Reading the pending error of a socket.
    SocketError { fd: RawFd },
    Readv { fd: RawFd, slices: usize },
    Writev { fd: RawFd, slices: usize },
    Recvmsg { fd: RawFd },
    Sendmsg { fd: RawFd },
}

/// What an operation asks for when it is submitted.
#[derive(Clone, Copy, Debug, PartialEq, Eq, Structural)]
pub enum Submit {
    /// Make the call; its answer is final.
    Run(Syscall),
    /// Make the call without blocking; if it cannot finish, wait.
    Try(Syscall, WaitArg),
    /// Make no call; wait.
    Wait(WaitArg),
}

/// What a system call returned, as a result: a negative value stands for
/// the error that was set, anything else is the count that the call
/// returned.
pub open spec fn spec_syscall_result(ret: isize, last_error: Error) -> Result<usize, Error> {
    if ret < 0 {
        Err(last_error)
    } else {
        Ok(ret as usize)
    }
}

/// The answer to a call whose result is final: the count, or the error.
pub open spec fn spec_completed(outcome: Result<usize, Error>) -> Result<Decision, Error> {
    match outcome {
        Ok(n) => Ok(Decision::Completed(n)),
        Err(e) => Err(e),
    }
}

/// The answer to a call that was tried without blocking: the count; the
/// wait, if the error only says that the call has not finished; or the
/// error.
pub open spec fn spec_or_wait(outcome: Result<usize, Error>, arg: WaitArg) -> Result<
    Decision,
    Error,
> {
    match outcome {
        Ok(n) => Ok(Decision::Completed(n)),
        Err(e) => if e.spec_would_block() {
            Ok(Decision::Wait(arg))
        } else {
            Err(e)
        },
    }
}

/// The answer to a call that was retried after the descriptor became ready:
/// pending if the error only says that the call has not finished, and the
/// count or the error otherwise.
pub open spec fn spec_ready(outcome: Result<usize, Error>) -> Poll<Result<usize, Error>> {
    match outcome {
        Ok(n) => Poll::Ready(Ok(n)),
        Err(e) => if e.spec_would_block() {
            Poll::Pending
        } else {
            Poll::Ready(Err(e))
        },
    }
}

impl Submit {
    /// The call to make, if any.
    pub open spec fn spec_call(self) -> Option<Syscall> {
        match self {
            Submit::Run(call) => Some(call),
            Submit::Try(call, _) => Some(call),
            Submit::Wait(_) => None,
        }
    }

    /// What follows from the answer to the call. Where no call was asked
    /// for, the answer does not matter.
    pub open spec fn spec_decide(self, outcome: Result<usize, Error>) -> Result<Decision, Error> {
        match self {
            Submit::Run(_) => spec_completed(outcome),
            Submit::Try(_, arg) => spec_or_wait(outcome, arg),
            Submit::Wait(arg) => Ok(Decision::Wait(arg)),
        }
    }

    #[verifier::when_used_as_spec(spec_call)]
    pub fn call(self) -> (call: Option<Syscall>)
        ensures
            call == self.spec_call(),
    {
        match self {
            Submit::Run(call) => Some(call),
            Submit::Try(call, _) => Some(call),
            Submit::Wait(_) => None,
        }
    }

    #[verifier::when_used_as_spec(spec_decide)]
    pub fn decide(self, outcome: Result<usize, Error>) -> (decision: Result<Decision, Error>)
        ensures
            decision == self.spec_decide(outcome),
    {
        match self {
            Submit::Run(_) => completed(outcome),
            Submit::Try(_, arg) => or_wait(outcome, arg),
            Submit::Wait(arg) => Ok(Decision::Wait(arg)),
        }
    }
}

#[verifier::when_used_as_spec(spec_syscall_result)]
pub fn syscall_result(ret: isize, last_error: Error) -> (outcome: Result<usize, Error>)
    ensures
        outcome == spec_syscall_result(ret, last_error),
{
    if ret < 0 {
        Err(last_error)
    } else {
        Ok(ret as usize)
    }
}

#[verifier::when_used_as_spec(spec_completed)]
pub fn completed(outcome: Result<usize, Error>) -> (decision: Result<Decision, Error>)
    ensures
        decision == spec_completed(outcome),
{
    match outcome {
        Ok(n) => Ok(Decision::Completed(n)),
        Err(e) => Err(e),
    }
}

#[verifier::when_used_as_spec(spec_or_wait)]
pub fn or_wait(outcome: Result<usize, Error>, arg: WaitArg) -> (decision: Result<Decision, Error>)
    ensures
        decision == spec_or_wait(outcome, arg),
{
    match outcome {
        Ok(n) => Ok(Decision::Completed(n)),
        Err(e) => if e.would_block() {
            Ok(Decision::Wait(arg))
        } else {
            Err(e)
        },
    }
}

#[verifier::when_used_as_spec(spec_ready)]
pub fn ready(outcome: Result<usize, Error>) -> (answer: Poll<Result<usize, Error>>)
    ensures
        answer == spec_ready(outcome),
{
    match outcome {
        Ok(n) => Poll::Ready(Ok(n)),
        Err(e) => if e.would_block() {
            Poll::Pending
        } else {
            Poll::Ready(Err(e))
        },
    }
}

} // verus!
