//! The driver as a state machine: what it knows, and how each request and
//! each answer from outside changes that.
//!
//! Everything here is mathematics. The executable driver keeps a value of
//! [`State`] as its view and promises, function by function, that it moves
//! as the transitions below say.

use vstd::prelude::*;
use vstd::set_lib::lemma_set_subset_finite;
use crate::entry::Entry;
use crate::error::Error;
use crate::fd::RawFd;
use crate::key::Key;
use crate::op::OpType;
use crate::task::Poll;
use crate::wait::WaitCompletionPacket;

verus! {

/// Where a registered operation stands.
#[derive(Clone, Copy, Debug, PartialEq, Eq, Structural)]
pub enum OpState {
    /// Not submitted, or completed: the operation may be pushed or reclaimed.
    Idle,
    /// Pushed, and waiting for the kernel to arm a wait packet on this event.
    Arming(RawFd),
    /// The kernel has taken the operation.
    Submitted,
    /// A worker thread has taken the operation.
    Dispatched,
    /// A wait packet is armed for the operation's event.
    Waiting,
}

/// How an operation answered when it was pushed: its type, and for an
/// overlapped operation what submitting it to the kernel returned.
#[derive(Clone, Copy, Debug, PartialEq, Eq)]
pub enum Submission {
    Overlapped(Poll<Result<usize, Error>>),
    Blocking,
    Event(RawFd),
}

impl Submission {
    /// Whether the submission is the one that goes with the type that the
    /// operation gave.
    pub open spec fn follows(self, op_type: OpType) -> bool {
        match op_type {
            OpType::Overlapped => self is Overlapped,
            OpType::Blocking => self == Submission::Blocking,
            OpType::Event(event) => self == Submission::Event(event),
        }
    }
}

/// Whether one of the raw entries carries the identifier.
pub open spec fn carries(raw: Seq<Entry>, k: usize) -> bool {
    exists|i: int| 0 <= i < raw.len() && (#[trigger] raw[i]).user_data == k
}

/// What a raw completion entry turns out to be.
#[derive(Clone, Copy, Debug, PartialEq, Eq)]
pub enum Delivery {
    /// A wakeup from another thread: nothing to report.
    Wakeup,
    /// The wait packet of this operation was taken back: report it canceled.
    Canceled(usize),
    /// The event of this operation fired: its blocking body has the result.
    Event(usize),
    /// An ordinary completion: report it as it came.
    Forward(Entry),
}

/// One thing that can happen to a driver.
pub enum Step {
    Create,
    Submit(usize, Submission),
    Register(usize, Result<(), Error>),
    CancelPacket(usize, Result<(), Error>),
    Deliver(Entry),
    Reclaim(usize),
    Attach(RawFd),
}

/// What a driver knows.
pub struct State {
    /// The completion port, which is also the driver's identity.
    pub port: RawFd,
    /// The identifier that wakeups are posted under.
    pub notify: usize,
    /// The identifier that the next registered operation gets.
    pub next: usize,
    /// How many worker threads the pool may have.
    pub limit: nat,
    /// How many worker threads are running an operation.
    pub active: nat,
    /// The registered operations, each with where it stands.
    pub cells: Map<usize, OpState>,
    /// The live wait packets.
    pub waits: Map<usize, WaitCompletionPacket>,
    /// The handles associated with the port.
    pub attached: Set<RawFd>,
}

impl State {
    /// A driver that has just been created on `port`.
    pub open spec fn init(port: RawFd, limit: nat) -> State {
        State {
            port,
            notify: 0,
            next: 1,
            limit,
            active: 0,
            cells: Map::empty(),
            waits: Map::empty(),
            attached: Set::empty(),
        }
    }

    /// The key was made by this driver.
    pub open spec fn made(self, key: Key) -> bool {
        key.header.driver == self.port
    }

    pub open spec fn registered(self, k: usize) -> bool {
        self.cells.contains_key(k)
    }

    /// The operation may be pushed or reclaimed.
    pub open spec fn idle(self, k: usize) -> bool {
        self.cells.contains_key(k) && self.cells[k] is Idle
    }

    /// The operation has been pushed and has not completed.
    pub open spec fn busy(self, k: usize) -> bool {
        self.cells.contains_key(k) && !(self.cells[k] is Idle)
    }

    /// The kernel or a worker holds the operation: an entry for it is owed.
    pub open spec fn in_flight(self, k: usize) -> bool {
        self.cells.contains_key(k) && (self.cells[k] is Submitted || self.cells[k] is Dispatched
            || self.cells[k] is Waiting)
    }

    /// The operations that worker threads are running.
    pub open spec fn dispatched(self) -> Set<usize> {
        Set::new(|k: usize| self.cells.contains_key(k) && self.cells[k] is Dispatched)
    }

    /// What holds of every driver: no operation shares the identifier of the
    /// wakeups, every identifier handed out lies below the next one, the wait
    /// packets are those of the operations that wait for an event, and the
    /// busy workers are as many as the dispatched operations and no more than
    /// the pool allows.
    pub open spec fn wf(self) -> bool {
        &&& self.cells.dom().finite()
        &&& self.notify < self.next
        &&& forall|k: usize| #[trigger]
            self.cells.contains_key(k) ==> k != self.notify && k < self.next
        &&& forall|k: usize|
            #![trigger self.waits.contains_key(k)]
            #![trigger self.cells.contains_key(k)]
            self.waits.contains_key(k) <==> self.cells.contains_key(k) && self.cells[k] is Waiting
        &&& self.active <= self.limit
        &&& self.active == self.dispatched().len()
    }

    pub open spec fn set(self, k: usize, to: OpState) -> State {
        State { cells: self.cells.insert(k, to), ..self }
    }

    /// Registering an operation: it gets the next identifier and is idle.
    pub open spec fn create(self) -> State {
        State {
            cells: self.cells.insert(self.next, OpState::Idle),
            next: (self.next + 1) as usize,
            ..self
        }
    }

    /// Pushing an idle operation that answered `s`. An overlapped operation
    /// that the kernel took is submitted; a blocking one is dispatched if a
    /// worker is free; one that waits for an event awaits its wait packet.
    /// Anything else leaves the driver as it was.
    pub open spec fn submit(self, k: usize, s: Submission) -> State {
        if !self.idle(k) {
            self
        } else {
            match s {
                Submission::Overlapped(Poll::Ready(_)) => self,
                Submission::Overlapped(Poll::Pending) => self.set(k, OpState::Submitted),
                Submission::Blocking => if self.active < self.limit {
                    State { active: self.active + 1, ..self.set(k, OpState::Dispatched) }
                } else {
                    self
                },
                Submission::Event(event) => self.set(k, OpState::Arming(event)),
            }
        }
    }

    /// What such a push returns: the kernel's answer for an overlapped
    /// operation, the busy error if the pool refused a blocking one, and
    /// pending otherwise.
    pub open spec fn submit_result(self, s: Submission) -> Poll<Result<usize, Error>> {
        match s {
            Submission::Overlapped(answer) => answer,
            Submission::Blocking => if self.active < self.limit {
                Poll::Pending
            } else {
                Poll::Ready(Err(Error::spec_busy()))
            },
            Submission::Event(_) => Poll::Pending,
        }
    }

    /// The kernel's answer to arming the wait packet of an operation that
    /// awaits one: armed, the packet is live and the operation waits; failed,
    /// the operation is idle again.
    pub open spec fn register(self, k: usize, outcome: Result<(), Error>) -> State {
        if self.cells.contains_key(k) && self.cells[k] is Arming {
            match outcome {
                Ok(_) => State {
                    waits: self.waits.insert(
                        k,
                        WaitCompletionPacket::armed(self.cells[k]->Arming_0),
                    ),
                    ..self.set(k, OpState::Waiting)
                },
                Err(_) => self.set(k, OpState::Idle),
            }
        } else {
            self
        }
    }

    /// What the push of that operation comes to in the end.
    pub open spec fn register_result(outcome: Result<(), Error>) -> Poll<Result<usize, Error>> {
        match outcome {
            Ok(_) => Poll::Pending,
            Err(e) => Poll::Ready(Err(e)),
        }
    }

    /// The kernel's answer to taking back the wait packet of an operation.
    pub open spec fn cancel_packet(self, k: usize, outcome: Result<(), Error>) -> State {
        if self.waits.contains_key(k) {
            State { waits: self.waits.insert(k, self.waits[k].after_cancel(outcome)), ..self }
        } else {
            self
        }
    }

    /// Whether a completion has to be posted for the operation after that
    /// answer: the kernel will post none for a packet it took back.
    pub open spec fn must_post(self, k: usize, outcome: Result<(), Error>) -> bool {
        self.waits.contains_key(k) && outcome is Ok
    }

    /// What a raw entry is: a wakeup if it carries the wakeup identifier,
    /// the end of an event wait if its operation has a live wait packet, and
    /// an ordinary completion otherwise.
    pub open spec fn delivery(self, raw: Entry) -> Delivery {
        let k = raw.user_data;
        if k == self.notify {
            Delivery::Wakeup
        } else if self.waits.contains_key(k) {
            if self.waits[k].cancelled {
                Delivery::Canceled(k)
            } else {
                Delivery::Event(k)
            }
        } else {
            Delivery::Forward(raw)
        }
    }

    /// The driver after a raw entry has been taken from the port: a wakeup
    /// changes nothing; otherwise the operation is idle again, its wait
    /// packet gone and its worker free.
    pub open spec fn deliver(self, raw: Entry) -> State {
        let k = raw.user_data;
        if k == self.notify {
            self
        } else if self.waits.contains_key(k) {
            State { waits: self.waits.remove(k), ..self.set(k, OpState::Idle) }
        } else if self.cells.contains_key(k) && self.cells[k] is Submitted {
            self.set(k, OpState::Idle)
        } else if self.cells.contains_key(k) && self.cells[k] is Dispatched {
            State { active: (self.active - 1) as nat, ..self.set(k, OpState::Idle) }
        } else {
            self
        }
    }

    /// Taking an idle operation out of the driver.
    pub open spec fn reclaim(self, k: usize) -> State {
        if self.idle(k) {
            State { cells: self.cells.remove(k), ..self }
        } else {
            self
        }
    }

    /// Associating a handle with the port.
    pub open spec fn attach(self, fd: RawFd) -> State {
        State { attached: self.attached.insert(fd), ..self }
    }

    /// The driver after one step.
    pub open spec fn step(self, step: Step) -> State {
        match step {
            Step::Create => self.create(),
            Step::Submit(k, s) => self.submit(k, s),
            Step::Register(k, outcome) => self.register(k, outcome),
            Step::CancelPacket(k, outcome) => self.cancel_packet(k, outcome),
            Step::Deliver(raw) => self.deliver(raw),
            Step::Reclaim(k) => self.reclaim(k),
            Step::Attach(fd) => self.attach(fd),
        }
    }

    /// The driver after a batch of raw entries, taken in order.
    pub open spec fn deliver_all(self, raw: Seq<Entry>) -> State
        decreases raw.len(),
    {
        if raw.len() == 0 {
            self
        } else {
            self.deliver_all(raw.drop_last()).deliver(raw.last())
        }
    }

    /// Whether `out` can be what the driver reports for a batch of raw
    /// entries: nothing for a wakeup, one entry for every other raw entry, in
    /// order; the raw entry itself for an ordinary completion, a canceled
    /// entry for a wait packet that was taken back, and an entry with the
    /// operation's identifier for an event that fired.
    pub open spec fn reports(self, raw: Seq<Entry>, out: Seq<Entry>) -> bool
        decreases raw.len(),
    {
        if raw.len() == 0 {
            out.len() == 0
        } else {
            let before = self.deliver_all(raw.drop_last());
            match before.delivery(raw.last()) {
                Delivery::Wakeup => self.reports(raw.drop_last(), out),
                Delivery::Canceled(k) => {
                    &&& out.len() > 0
                    &&& out.last() == (Entry {
                        user_data: k,
                        result: Err(Error::spec_canceled()),
                    })
                    &&& self.reports(raw.drop_last(), out.drop_last())
                },
                Delivery::Event(k) => {
                    &&& out.len() > 0
                    &&& out.last().user_data == k
                    &&& self.reports(raw.drop_last(), out.drop_last())
                },
                Delivery::Forward(entry) => {
                    &&& out.len() > 0
                    &&& out.last() == entry
                    &&& self.reports(raw.drop_last(), out.drop_last())
                },
            }
        }
    }
}

/// Changing where one operation stands changes the set of dispatched
/// operations by that operation alone.
pub proof fn lemma_dispatched_set(s: State, k: usize, to: OpState)
    requires
        s.cells.dom().finite(),
    ensures
        s.dispatched().finite(),
        to is Dispatched ==> s.set(k, to).dispatched() == s.dispatched().insert(k),
        !(to is Dispatched) ==> s.set(k, to).dispatched() == s.dispatched().remove(k),
{
    assert(s.dispatched().subset_of(s.cells.dom()));
    lemma_set_subset_finite(s.cells.dom(), s.dispatched());
    if to is Dispatched {
        assert(s.set(k, to).dispatched() =~= s.dispatched().insert(k));
    } else {
        assert(s.set(k, to).dispatched() =~= s.dispatched().remove(k));
    }
}

/// Every step leads from a well-formed driver to a well-formed driver, as
/// long as identifiers are left for a new operation.
pub proof fn lemma_step_wf(s: State, step: Step)
    requires
        s.wf(),
        step is Create ==> s.next < usize::MAX,
    ensures
        s.step(step).wf(),
{
    let t = s.step(step);
    match step {
        Step::Create => {
            lemma_dispatched_set(s, s.next, OpState::Idle);
            assert(t.dispatched() =~= s.set(s.next, OpState::Idle).dispatched());
            assert(!s.dispatched().contains(s.next));
        },
        Step::Submit(k, sub) => {
            if s.idle(k) {
                match sub {
                    Submission::Overlapped(Poll::Ready(_)) => {},
                    Submission::Overlapped(Poll::Pending) => {
                        lemma_dispatched_set(s, k, OpState::Submitted);
                    },
                    Submission::Blocking => {
                        if s.active < s.limit {
                            lemma_dispatched_set(s, k, OpState::Dispatched);
                            assert(t.dispatched() =~= s.set(k, OpState::Dispatched).dispatched());
                        }
                    },
                    Submission::Event(event) => {
                        lemma_dispatched_set(s, k, OpState::Arming(event));
                    },
                }
            }
        },
        Step::Register(k, outcome) => {
            if s.cells.contains_key(k) && s.cells[k] is Arming {
                match outcome {
                    Ok(_) => {
                        lemma_dispatched_set(s, k, OpState::Waiting);
                        assert(t.dispatched() =~= s.set(k, OpState::Waiting).dispatched());
                    },
                    Err(_) => {
                        lemma_dispatched_set(s, k, OpState::Idle);
                    },
                }
            }
        },
        Step::CancelPacket(k, outcome) => {
            assert(t.dispatched() =~= s.dispatched());
        },
        Step::Deliver(raw) => {
            let k = raw.user_data;
            if k != s.notify {
                lemma_dispatched_set(s, k, OpState::Idle);
                assert(t.dispatched() =~= if s.waits.contains_key(k) || (s.cells.contains_key(k)
                    && (s.cells[k] is Submitted || s.cells[k] is Dispatched)) {
                    s.set(k, OpState::Idle).dispatched()
                } else {
                    s.dispatched()
                });
            }
        },
        Step::Reclaim(k) => {
            assert(s.dispatched().subset_of(s.cells.dom()));
            lemma_set_subset_finite(s.cells.dom(), s.dispatched());
            assert(t.dispatched() =~= s.dispatched());
        },
        Step::Attach(fd) => {
            assert(t.dispatched() =~= s.dispatched());
        },
    }
}

/// A batch of raw entries leads from a well-formed driver to a well-formed
/// driver.
pub proof fn lemma_deliver_all_wf(s: State, raw: Seq<Entry>)
    requires
        s.wf(),
    ensures
        s.deliver_all(raw).wf(),
        s.deliver_all(raw).notify == s.notify,
    decreases raw.len(),
{
    if raw.len() > 0 {
        lemma_deliver_all_wf(s, raw.drop_last());
        lemma_step_wf(s.deliver_all(raw.drop_last()), Step::Deliver(raw.last()));
    }
}

} // verus!
