//! What the driver remembers of a wait packet.

use vstd::prelude::*;
use crate::error::Error;
use crate::fd::RawFd;

verus! {

/// A live wait packet: the event it is armed for, and whether the kernel has
/// confirmed that it was taken back before it fired.
#[derive(Clone, Copy, Debug, PartialEq, Eq, Structural)]
pub struct WaitCompletionPacket {
    pub event: RawFd,
    pub cancelled: bool,
}

impl WaitCompletionPacket {
    /// The packet as it is once the kernel has armed it.
    pub open spec fn armed(event: RawFd) -> WaitCompletionPacket {
        WaitCompletionPacket { event, cancelled: false }
    }

    /// The packet after the kernel has answered a request to take it back.
    pub open spec fn after_cancel(self, outcome: Result<(), Error>) -> WaitCompletionPacket {
        if outcome is Ok {
            WaitCompletionPacket { event: self.event, cancelled: true }
        } else {
            self
        }
    }

    pub fn new(event: RawFd) -> (packet: WaitCompletionPacket)
        ensures
            packet == WaitCompletionPacket::armed(event),
    {
        WaitCompletionPacket { event, cancelled: false }
    }

    /// Records the kernel's answer to a request to take the packet back, and
    /// hands the answer on. `Ok` means that the packet will not fire.
    pub fn cancel(&mut self, outcome: Result<(), Error>) -> (result: Result<(), Error>)
        ensures
            *final(self) == old(self).after_cancel(outcome),
            result == outcome,
    {
        if outcome.is_ok() {
            self.cancelled = true;
        }
        outcome
    }

    pub fn is_cancelled(&self) -> (cancelled: bool)
        ensures
            cancelled == self.cancelled,
    {
        self.cancelled
    }

    pub fn event(&self) -> (event: RawFd)
        ensures
            event == self.event,
    {
        self.event
    }
}

} // verus!
