//! The platform-abstraction core of a completion-style asynchronous I/O
//! runtime: a proactor driver between operations issued by the runtime and
//! the completion facility of the operating system.
//!
//! The driver owns the operations registered with it, submits them, follows
//! each one until its completion entry is delivered, and supports
//! cancellation and wakeups from other threads. Everything the kernel, a
//! worker thread or an operation answers reaches the driver as a plain value,
//! and everything the driver wants done leaves it as one: the driver itself
//! performs no system call.

pub mod driver;
pub mod entry;
pub mod error;
pub mod fd;
pub mod key;
pub mod laws;
pub mod op;
pub mod poll;
pub mod pool;
pub mod state;
pub mod task;
pub mod wait;

pub use driver::{Driver, NotifyHandle};
pub use entry::Entry;
pub use error::{Error, ErrorKind};
pub use fd::{AsRawFd, OwnedFd, RawFd};
pub use key::{Key, Overlapped};
pub use op::{OpCode, OpType};

pub use pool::{AsyncifyPool, ProactorBuilder};
pub use state::{Delivery, OpState, State, Step, Submission};
pub use task::Poll;
pub use wait::WaitCompletionPacket;

