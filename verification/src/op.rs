//! What an operation has to offer the driver.

use vstd::prelude::*;
use crate::error::Error;
use crate::fd::RawFd;
use crate::task::Poll;

verus! {

/// Operation type.
#[derive(Clone, Copy, Debug, PartialEq, Eq, Structural)]
pub enum OpType {
    /// An overlapped operation: the kernel completes it asynchronously.
    Overlapped,
    /// A blocking operation: it needs a worker thread to run on.
    Blocking,
    /// An event object to be waited for. The handle must stay valid until the
    /// operation completes.
    Event(RawFd),
}

/// One asynchronous operation, as the completion-based driver drives it.
/// `operate` answers `Pending` if the kernel took the operation, and `Ready`
/// if it completed or failed at once. The trait promises what its defaults
/// do: an operation is overlapped and cannot stop, unless it says otherwise.
pub trait OpCode: Sized {
    /// Says whether the kernel can run the operation asynchronously. If not,
    /// the driver runs it on a worker thread, or waits for its event.
    fn op_type(&self) -> (op_type: OpType)
        ensures
            self.overlapped() ==> op_type == OpType::Overlapped,
    {
        OpType::Overlapped
    }

    /// Submits the operation to the kernel, which hands `user_data` back.
    fn operate(&mut self, user_data: usize) -> (answer: Poll<Result<usize, Error>>)
        ensures
            old(self).submits(user_data, *final(self), answer),
    ;

    /// Asks the kernel to stop the operation. It may have completed already.
    fn cancel(&mut self, user_data: usize) -> (result: Result<(), Error>)
        ensures
            !old(self).has_cancel() ==> result is Ok && *final(self) == *old(self),
    {
        let _ = user_data;
        Ok(())
    }

    /// Runs the operation to its end on the calling thread.
    fn operate_blocking(&mut self) -> (result: Result<usize, Error>)
        ensures
            old(self).runs(*final(self), result),
    ;

    /// Whether the kernel can run the operation asynchronously. An operation
    /// that is blocking, or waits for an event, says so here.
    open spec fn overlapped(&self) -> bool {
        true
    }

    /// Whether the operation has a way of its own to stop. An operation that
    /// gives `cancel` a body says so here; one that does not is left as it
    /// was by `cancel`, which then succeeds.
    open spec fn has_cancel(&self) -> bool {
        false
    }

    /// Whether submitting the operation under `user_data` can leave it as
    /// `after` and answer `answer`. The operation says what it does; the
    /// driver hands on what came of it.
    spec fn submits(
        &self,
        user_data: usize,
        after: Self,
        answer: Poll<Result<usize, Error>>,
    ) -> bool;

    /// Whether running the operation to its end can leave it as `after` and
    /// give `result`.
    spec fn runs(&self, after: Self, result: Result<usize, Error>) -> bool;
}

} // verus!
