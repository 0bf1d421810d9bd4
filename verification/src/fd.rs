//! Handles of kernel objects as integers.

use vstd::prelude::*;

verus! {

/// The integer by which the driver knows a kernel object. Handles and sockets
/// have the same size, and both can be attached to a completion port.
pub type RawFd = isize;

/// Extracts raw fds.
pub trait AsRawFd {
    /// Extracts the raw fd.
    fn as_raw_fd(&self) -> RawFd;
}

/// An owned handle or socket, by the integer that identifies it.
#[derive(Clone, Copy, Debug, PartialEq, Eq, Structural)]
pub enum OwnedFd {
    /// A file handle.
    File(RawFd),
    /// A socket handle.
    Socket(RawFd),
}

impl OwnedFd {
    /// The integer inside, whichever kind of object it names.
    pub open spec fn raw(self) -> RawFd {
        match self {
            OwnedFd::File(fd) => fd,
            OwnedFd::Socket(s) => s,
        }
    }
}

impl AsRawFd for OwnedFd {
    fn as_raw_fd(&self) -> (fd: RawFd)
        ensures
            fd == self.raw(),
    {
        match self {
            OwnedFd::File(fd) => *fd,
            OwnedFd::Socket(s) => *s,
        }
    }
}

impl AsRawFd for RawFd {
    fn as_raw_fd(&self) -> (fd: RawFd)
        ensures
            fd == *self,
    {
        *self
    }
}

} // verus!
