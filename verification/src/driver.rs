//! The driver: registering, pushing, cancelling and completing operations.
//!
//! The driver talks to nobody. Where the kernel has to act, the caller acts
//! and reports the answer: it arms the wait packet of an operation found in
//! [`OpState::Arming`] and calls [`Driver::register`]; it starts a worker for
//! one found in [`OpState::Dispatched`], which runs the blocking body and
//! posts the result to the port; it takes back a wait packet when
//! [`Driver::cancel`] says so and calls [`Driver::cancel_packet`]; it posts
//! what [`Driver::cancel_packet`] and [`NotifyHandle::notify`] tell it to;
//! and it hands every batch taken from the port to [`Driver::poll`].

use std::collections::HashMap;
use std::collections::HashSet;
use vstd::pervasive::unreached;
use vstd::prelude::*;
use crate::entry::Entry;
use crate::error::Error;
use crate::fd::{AsRawFd, RawFd};
use crate::key::{Key, Overlapped};
use crate::op::{OpCode, OpType};
use crate::pool::{AsyncifyPool, ProactorBuilder};
use crate::state::{
    carries, lemma_dispatched_set, lemma_step_wf, Delivery, OpState, State, Step, Submission,
};
use crate::task::Poll;
use crate::wait::WaitCompletionPacket;

verus! {

/// Low-level driver of a completion port.
pub struct Driver<O> {
    port: RawFd,
    notify_overlapped: Overlapped,
    notify_user_data: usize,
    next: usize,
    pool: AsyncifyPool,
    states: HashMap<usize, OpState>,
    waits: HashMap<usize, WaitCompletionPacket>,
    attached: HashSet<RawFd>,
    ops: HashMap<usize, O>,
}

impl<O> View for Driver<O> {
    type V = State;

    closed spec fn view(&self) -> State {
        State {
            port: self.port,
            notify: self.notify_user_data,
            next: self.next,
            limit: self.pool@.limit,
            active: self.pool@.active,
            cells: self.states@,
            waits: self.waits@,
            attached: self.attached@,
        }
    }
}

impl<O> Driver<O> {
    /// The operations that the driver owns, by identifier.
    pub closed spec fn operations(&self) -> Map<usize, O> {
        self.ops@
    }

    /// The header that wakeups are posted with.
    pub closed spec fn notify_header(&self) -> Overlapped {
        self.notify_overlapped
    }

    /// The driver is well formed, it owns exactly the registered operations,
    /// and its wakeup header names it.
    pub open spec fn inv(&self) -> bool {
        &&& self@.wf()
        &&& self.operations().dom() == self@.cells.dom()
        &&& self.notify_header().driver == self@.port
    }
}

impl<O: OpCode> Driver<O> {
    /// A driver on a completion port that has just been created, with an
    /// idle worker pool of the configured size and no operation.
    pub fn new(builder: &ProactorBuilder, port: RawFd) -> (driver: Driver<O>)
        ensures
            driver.inv(),
            driver@ == State::init(port, builder.thread_pool_limit as nat),
            driver.operations() == Map::<usize, O>::empty(),
    {
        let driver = Driver {
            port,
            notify_overlapped: Overlapped::new(port),
            notify_user_data: 0,
            next: 1,
            pool: builder.create_or_get_thread_pool(),
            states: HashMap::new(),
            waits: HashMap::new(),
            attached: HashSet::new(),
            ops: HashMap::new(),
        };
        proof {
            assert(driver@.dispatched() =~= Set::<usize>::empty());
            assert(driver.operations().dom() =~= driver@.cells.dom());
        }
        driver
    }

    /// Registers an operation. The driver owns it from now on; the key names
    /// its cell.
    pub fn create_op(&mut self, op: O) -> (key: Key)
        requires
            old(self).inv(),
            old(self)@.next < usize::MAX,
        ensures
            final(self).inv(),
            final(self)@ == old(self)@.create(),
            key.user_data == old(self)@.next,
            key.header.driver == old(self)@.port,
            final(self).operations() == old(self).operations().insert(key.user_data, op),
    {
        proof {
            lemma_step_wf(self@, Step::Create);
        }
        let user_data = self.next;
        self.next = user_data + 1;
        self.states.insert(user_data, OpState::Idle);
        self.ops.insert(user_data, op);
        proof {
            assert(self.operations().dom() =~= self@.cells.dom());
        }
        Key::new(self.port, user_data)
    }

    /// Registers an operation if an identifier is left for it, and hands the
    /// operation back unchanged if none is.
    pub fn try_create_op(&mut self, op: O) -> (key: Result<Key, O>)
        requires
            old(self).inv(),
        ensures
            final(self).inv(),
            key is Ok <==> old(self)@.next < usize::MAX,
            key matches Ok(k) ==> {
                &&& final(self)@ == old(self)@.create()
                &&& k.user_data == old(self)@.next
                &&& k.header.driver == old(self)@.port
                &&& final(self).operations() == old(self).operations().insert(k.user_data, op)
            },
            key matches Err(back) ==> {
                &&& back == op
                &&& final(self)@ == old(self)@
                &&& final(self).operations() == old(self).operations()
            },
    {
        if self.next < usize::MAX {
            Ok(self.create_op(op))
        } else {
            Err(op)
        }
    }

    /// Notes that a handle is associated with the port, and says whether it
    /// was not before: only then has the kernel to be asked.
    pub fn attach(&mut self, fd: RawFd) -> (fresh: bool)
        requires
            old(self).inv(),
        ensures
            final(self).inv(),
            final(self)@ == old(self)@.attach(fd),
            fresh == !old(self)@.attached.contains(fd),
            final(self).operations() == old(self).operations(),
    {
        proof {
            lemma_step_wf(self@, Step::Attach(fd));
        }
        self.attached.insert(fd)
    }

    /// Where the operation of a key stands, if this driver owns it.
    pub fn state(&self, key: &Key) -> (state: Option<OpState>)
        requires
            self.inv(),
        ensures
            state == if key.header.driver == self@.port && self@.registered(key.user_data) {
                Some(self@.cells[key.user_data])
            } else {
                None
            },
    {
        if key.header.driver != self.port {
            return None;
        }
        match self.states.get(&key.user_data) {
            Some(state) => Some(*state),
            None => None,
        }
    }

    /// Asks the operation behind a key to stop. Best effort: errors are
    /// dropped, and the operation may complete all the same.
    ///
    /// If the operation has a live wait packet, nothing is done yet and the
    /// result is `true`: the caller asks the kernel to take the packet back
    /// and reports the answer to [`Driver::cancel_packet`]. Otherwise the
    /// operation's own cancel hook has run. A key of another driver is
    /// left alone.
    pub fn cancel(&mut self, key: &Key) -> (packet: bool)
        requires
            old(self).inv(),
        ensures
            final(self).inv(),
            final(self)@ == old(self)@,
            packet == (old(self)@.made(*key) && old(self)@.waits.contains_key(key.user_data)),
            final(self).operations().dom() == old(self).operations().dom(),
            forall|k: usize|
                k != key.user_data && old(self).operations().contains_key(k)
                    ==> #[trigger] final(self).operations()[k] == old(self).operations()[k],
            packet || !old(self)@.made(*key) ==> final(self).operations() == old(self).operations(),
            old(self).operations().contains_key(key.user_data) && !old(
                self,
            ).operations()[key.user_data].has_cancel() ==> final(self).operations() == old(
                self,
            ).operations(),
    {
        let user_data = key.user_data;
        if key.header.driver != self.port {
            return false;
        }
        if self.waits.contains_key(&user_data) {
            true
        } else {
            self.cancel_op(user_data);
            false
        }
    }

    /// Records the kernel's answer to taking back the wait packet of an
    /// operation, then runs the operation's own cancel hook. The result says
    /// whether the caller has to post a completion for the operation: the
    /// kernel posts none for a packet that it took back. A key of another
    /// driver is left alone.
    pub fn cancel_packet(&mut self, key: &Key, outcome: Result<(), Error>) -> (post: bool)
        requires
            old(self).inv(),
        ensures
            final(self).inv(),
            final(self)@ == if old(self)@.made(*key) {
                old(self)@.cancel_packet(key.user_data, outcome)
            } else {
                old(self)@
            },
            post == (old(self)@.made(*key) && old(self)@.must_post(key.user_data, outcome)),
            final(self).operations().dom() == old(self).operations().dom(),
            forall|k: usize|
                k != key.user_data && old(self).operations().contains_key(k)
                    ==> #[trigger] final(self).operations()[k] == old(self).operations()[k],
            !old(self)@.made(*key) ==> final(self).operations() == old(self).operations(),
            old(self).operations().contains_key(key.user_data) && !old(
                self,
            ).operations()[key.user_data].has_cancel() ==> final(self).operations() == old(
                self,
            ).operations(),
    {
        let user_data = key.user_data;
        if key.header.driver != self.port {
            return false;
        }
        proof {
            lemma_step_wf(self@, Step::CancelPacket(user_data, outcome));
        }
        let post = match self.waits.remove(&user_data) {
            Some(packet) => {
                let mut packet = packet;
                let post = packet.cancel(outcome).is_ok();
                self.waits.insert(user_data, packet);
                post
            },
            None => false,
        };
        proof {
            assert(self@.waits =~= old(self)@.cancel_packet(user_data, outcome).waits);
        }
        self.cancel_op(user_data);
        post
    }

    /// Runs the cancel hook of an operation, if the driver owns one under
    /// this identifier. It is fine for the hook to fail. An operation that
    /// has no way of its own to stop is left as it was.
    fn cancel_op(&mut self, user_data: usize)
        requires
            old(self).inv(),
        ensures
            final(self).inv(),
            final(self)@ == old(self)@,
            final(self).operations().dom() == old(self).operations().dom(),
            forall|k: usize|
                k != user_data && old(self).operations().contains_key(k)
                    ==> #[trigger] final(self).operations()[k] == old(self).operations()[k],
            !old(self).operations().contains_key(user_data) ==> final(self).operations() == old(
                self,
            ).operations(),
            old(self).operations().contains_key(user_data) && !old(
                self,
            ).operations()[user_data].has_cancel() ==> final(self).operations() == old(
                self,
            ).operations(),
    {
        match self.ops.remove(&user_data) {
            Some(op) => {
                let mut op = op;
                let _ = op.cancel(user_data);
                self.ops.insert(user_data, op);
                proof {
                    assert(self.operations().dom() =~= old(self).operations().dom());
                    if !old(self).operations()[user_data].has_cancel() {
                        assert(self.operations() =~= old(self).operations());
                    }
                }
            },
            None => {
                proof {
                    assert(self.operations() =~= old(self).operations());
                }
            },
        }
    }

    /// Pushes an idle operation: asks it for its type, submits it to the
    /// kernel if it is overlapped, and goes on as [`Driver::submit`] says.
    ///
    /// The result is what the operation completed with if it did so at once,
    /// the submission error or the busy error if it could not be started,
    /// and pending if the kernel or a worker has taken it, or if its wait
    /// packet is still to be armed.
    ///
    /// The operation is asked for its type once, and the submission follows
    /// that type. An overlapped operation is submitted under the identifier
    /// of its key, and is afterwards what submitting made of it; any other
    /// operation is not touched.
    pub fn push(&mut self, key: &Key) -> (result: Poll<Result<usize, Error>>)
        requires
            old(self).inv(),
            old(self)@.made(*key),
            old(self)@.idle(key.user_data),
        ensures
            final(self).inv(),
            exists|s: Submission, t: OpType|
                {
                    &&& call_ensures(O::op_type, (&old(self).operations()[key.user_data],), t)
                    &&& #[trigger] s.follows(t)
                    &&& final(self)@ == old(self)@.submit(key.user_data, s)
                    &&& result == old(self)@.submit_result(s)
                    &&& old(self).operations()[key.user_data].overlapped() ==> s is Overlapped
                    &&& s is Overlapped ==> old(self).operations()[key.user_data].submits(
                        key.user_data,
                        final(self).operations()[key.user_data],
                        s->Overlapped_0,
                    )
                    &&& !(s is Overlapped) ==> final(self).operations() == old(self).operations()
                },
            result is Ready ==> final(self)@ == old(self)@,
            result is Pending ==> final(self)@.busy(key.user_data),
            final(self).operations().dom() == old(self).operations().dom(),
            forall|k: usize|
                k != key.user_data && old(self).operations().contains_key(k)
                    ==> #[trigger] final(self).operations()[k] == old(self).operations()[k],
    {
        let user_data = key.user_data;
        let ghost before = self.operations()[user_data];
        let (op_type, submission) = match self.ops.remove(&user_data) {
            Some(op) => {
                let mut op = op;
                let op_type = op.op_type();
                let submission = match op_type {
                    OpType::Overlapped => Submission::Overlapped(op.operate(user_data)),
                    OpType::Blocking => Submission::Blocking,
                    OpType::Event(event) => Submission::Event(event),
                };
                self.ops.insert(user_data, op);
                (op_type, submission)
            },
            None => {
                proof {
                    assert(old(self).operations().dom().contains(user_data));
                }
                unreached()
            },
        };
        proof {
            assert(self.operations().dom() =~= old(self).operations().dom());
            if !(submission is Overlapped) {
                assert(self.operations() =~= old(self).operations());
            }
        }
        let result = self.submit(key, submission);
        proof {
            assert(call_ensures(O::op_type, (&before,), op_type));
            assert(submission.follows(op_type));
            assert(self@ == old(self)@.submit(user_data, submission));
        }
        result
    }

    /// Goes on with the push of an idle operation that answered
    /// `submission`.
    ///
    /// An overlapped operation returns what the kernel answered, and is in
    /// flight if that was pending. A blocking operation goes to the worker
    /// pool: pending if a worker took it, the busy error if none is free, in
    /// which case nothing has changed. An operation that waits for an event
    /// is pending until its wait packet has been armed.
    pub fn submit(&mut self, key: &Key, submission: Submission) -> (result: Poll<
        Result<usize, Error>,
    >)
        requires
            old(self).inv(),
            old(self)@.made(*key),
            old(self)@.idle(key.user_data),
        ensures
            final(self).inv(),
            final(self)@ == old(self)@.submit(key.user_data, submission),
            result == old(self)@.submit_result(submission),
            final(self).operations() == old(self).operations(),
    {
        let user_data = key.user_data;
        proof {
            lemma_step_wf(self@, Step::Submit(user_data, submission));
        }
        let result = match submission {
            Submission::Overlapped(answer) => {
                match answer {
                    Poll::Pending => {
                        self.states.insert(user_data, OpState::Submitted);
                    },
                    Poll::Ready(_) => {},
                }
                answer
            },
            Submission::Blocking => {
                if self.push_blocking(user_data) {
                    Poll::Pending
                } else {
                    Poll::Ready(Err(Error::busy()))
                }
            },
            Submission::Event(event) => {
                self.states.insert(user_data, OpState::Arming(event));
                Poll::Pending
            },
        };
        proof {
            assert(self@.cells.dom() =~= old(self)@.cells.dom());
        }
        result
    }

    /// Hands an idle blocking operation to the worker pool, if a worker is
    /// free, and says whether one was.
    fn push_blocking(&mut self, user_data: usize) -> (accepted: bool)
        requires
            old(self)@.idle(user_data),
        ensures
            accepted == (old(self)@.active < old(self)@.limit),
            final(self)@ == old(self)@.submit(user_data, Submission::Blocking),
            final(self).operations() == old(self).operations(),
            final(self).notify_header() == old(self).notify_header(),
    {
        if self.pool.dispatch() {
            self.states.insert(user_data, OpState::Dispatched);
            true
        } else {
            false
        }
    }

    /// Takes the kernel's answer to arming the wait packet of an operation
    /// that awaits one. Armed, the packet is live and the push is pending;
    /// failed, the operation is idle again and the push returns the error.
    pub fn register(&mut self, key: &Key, outcome: Result<(), Error>) -> (result: Poll<
        Result<usize, Error>,
    >)
        requires
            old(self).inv(),
            old(self)@.made(*key),
            old(self)@.registered(key.user_data),
            old(self)@.cells[key.user_data] is Arming,
        ensures
            final(self).inv(),
            final(self)@ == old(self)@.register(key.user_data, outcome),
            result == State::register_result(outcome),
            final(self).operations() == old(self).operations(),
    {
        let user_data = key.user_data;
        proof {
            lemma_step_wf(self@, Step::Register(user_data, outcome));
        }
        let result = match outcome {
            Ok(_) => {
                let event = match self.states.get(&user_data) {
                    Some(OpState::Arming(event)) => *event,
                    _ => unreached(),
                };
                self.waits.insert(user_data, WaitCompletionPacket::new(event));
                self.states.insert(user_data, OpState::Waiting);
                Poll::Pending
            },
            Err(e) => {
                self.states.insert(user_data, OpState::Idle);
                Poll::Ready(Err(e))
            },
        };
        proof {
            assert(self@.cells.dom() =~= old(self)@.cells.dom());
        }
        result
    }

    /// Takes one raw entry from the port into account and says what it is.
    /// A wakeup changes nothing. Any other entry ends the flight of its
    /// operation: the wait packet is dropped, the worker is free again, and
    /// the operation is idle.
    pub fn complete(&mut self, entry: Entry) -> (delivery: Delivery)
        requires
            old(self).inv(),
        ensures
            final(self).inv(),
            final(self)@ == old(self)@.deliver(entry),
            delivery == old(self)@.delivery(entry),
            final(self).operations() == old(self).operations(),
    {
        let user_data = entry.user_data;
        proof {
            lemma_step_wf(self@, Step::Deliver(entry));
        }
        if user_data == self.notify_user_data {
            return Delivery::Wakeup;
        }
        let delivery = match self.waits.remove(&user_data) {
            Some(packet) => {
                self.states.insert(user_data, OpState::Idle);
                if packet.is_cancelled() {
                    Delivery::Canceled(user_data)
                } else {
                    Delivery::Event(user_data)
                }
            },
            None => {
                let state = match self.states.get(&user_data) {
                    Some(state) => Some(*state),
                    None => None,
                };
                match state {
                    Some(OpState::Submitted) => {
                        self.states.insert(user_data, OpState::Idle);
                    },
                    Some(OpState::Dispatched) => {
                        self.pool.release();
                        self.states.insert(user_data, OpState::Idle);
                    },
                    _ => {},
                }
                Delivery::Forward(entry)
            },
        };
        proof {
            assert(self@.cells.dom() =~= old(self)@.cells.dom());
            if old(self)@.cells.contains_key(user_data) && old(self)@.cells[user_data] is Dispatched {
                lemma_dispatched_set(old(self)@, user_data, OpState::Idle);
                assert(old(self)@.dispatched().contains(user_data));
                assert(old(self)@.dispatched().len() == old(self)@.dispatched().remove(
                    user_data,
                ).len() + 1);
            }
            assert(self@.waits == old(self)@.deliver(entry).waits);
            assert(self@.cells == old(self)@.deliver(entry).cells);
            assert(self@.active == old(self)@.deliver(entry).active);
        }
        delivery
    }

    /// Turns one raw entry from the port into the entry to report, if any.
    ///
    /// A wakeup is dropped. For an operation with a live wait packet, the
    /// packet is removed; the entry is canceled if the packet was taken
    /// back, and carries what the operation's blocking body returns
    /// otherwise. Any other entry passes through unchanged.
    pub fn create_entry(&mut self, entry: Entry) -> (out: Option<Entry>)
        requires
            old(self).inv(),
        ensures
            final(self).inv(),
            final(self)@ == old(self)@.deliver(entry),
            match old(self)@.delivery(entry) {
                Delivery::Wakeup => out is None,
                Delivery::Canceled(k) => out == Some(
                    Entry { user_data: k, result: Err(Error::spec_canceled()) },
                ),
                Delivery::Event(k) => out is Some && out->0.user_data == k && old(
                    self,
                ).operations()[k].runs(final(self).operations()[k], out->0.result),
                Delivery::Forward(e) => out == Some(e),
            },
            final(self).operations().dom() == old(self).operations().dom(),
            forall|k: usize|
                old(self)@.delivery(entry) != Delivery::Event(k) && old(self).operations().contains_key(k)
                    ==> #[trigger] final(self).operations()[k] == old(self).operations()[k],
    {
        match self.complete(entry) {
            Delivery::Wakeup => None,
            Delivery::Canceled(user_data) => Some(Entry::new(user_data, Err(Error::canceled()))),
            Delivery::Event(user_data) => {
                let result = match self.ops.remove(&user_data) {
                    Some(op) => {
                        let mut op = op;
                        let result = op.operate_blocking();
                        self.ops.insert(user_data, op);
                        result
                    },
                    None => {
                        proof {
                            assert(old(self)@.cells.dom().contains(user_data));
                            assert(old(self).operations().dom().contains(user_data));
                        }
                        unreached()
                    },
                };
                proof {
                    assert(self.operations().dom() =~= old(self).operations().dom());
                }
                Some(Entry::new(user_data, result))
            },
            Delivery::Forward(entry) => Some(entry),
        }
    }

    /// Turns a batch of raw entries from the port into the entries to
    /// report, in order, and appends them to `entries`.
    pub fn poll(&mut self, raw: &Vec<Entry>, entries: &mut Vec<Entry>)
        requires
            old(self).inv(),
        ensures
            final(self).inv(),
            final(self)@ == old(self)@.deliver_all(raw@),
            old(entries)@.len() <= final(entries)@.len(),
            final(entries)@.take(old(entries)@.len() as int) == old(entries)@,
            old(self)@.reports(raw@, final(entries)@.skip(old(entries)@.len() as int)),
            final(self).operations().dom() == old(self).operations().dom(),
            forall|k: usize|
                old(self).operations().contains_key(k) && !carries(raw@, k)
                    ==> #[trigger] final(self).operations()[k] == old(self).operations()[k],
    {
        let ghost before = entries@;
        let mut i: usize = 0;
        proof {
            assert(raw@.take(0) =~= Seq::<Entry>::empty());
            assert(entries@.skip(before.len() as int) =~= Seq::<Entry>::empty());
            assert(entries@.take(before.len() as int) =~= before);
        }
        while i < raw.len()
            invariant
                i <= raw.len(),
                self.inv(),
                self@ == old(self)@.deliver_all(raw@.take(i as int)),
                before.len() <= entries@.len(),
                entries@.take(before.len() as int) == before,
                old(self)@.reports(raw@.take(i as int), entries@.skip(before.len() as int)),
                self.operations().dom() == old(self).operations().dom(),
                forall|k: usize|
                    old(self).operations().contains_key(k) && !carries(raw@.take(i as int), k)
                        ==> #[trigger] self.operations()[k] == old(self).operations()[k],
            decreases raw.len() - i,
        {
            let ghost seen = raw@.take(i as int);
            let ghost out = entries@.skip(before.len() as int);
            let ghost kept = self.operations();
            let entry = raw[i];
            proof {
                assert(raw@.take(i + 1).drop_last() =~= seen);
                assert(raw@.take(i + 1).last() == entry);
                assert forall|k: usize| !carries(raw@.take(i + 1), k) implies entry.user_data != k
                    && !carries(seen, k) by {
                    assert(raw@.take(i + 1)[i as int] == entry);
                    if carries(seen, k) {
                        let j = choose|j: int| 0 <= j < seen.len() && seen[j].user_data == k;
                        assert(raw@.take(i + 1)[j] == seen[j]);
                    }
                }
            }
            match self.create_entry(entry) {
                Some(e) => {
                    entries.push(e);
                    proof {
                        let out2 = entries@.skip(before.len() as int);
                        assert(out2 =~= out.push(e));
                        assert(out2.drop_last() =~= out);
                        assert(out2.last() == e);
                        assert(entries@.take(before.len() as int) =~= before);
                    }
                },
                None => {},
            }
            proof {
                assert forall|k: usize|
                    old(self).operations().contains_key(k) && !carries(
                        raw@.take(i + 1),
                        k,
                    ) implies #[trigger] self.operations()[k] == old(self).operations()[k] by {
                    assert(self.operations()[k] == kept[k]);
                }
            }
            i = i + 1;
        }
        proof {
            assert(raw@.take(i as int) =~= raw@);
        }
    }

    /// A handle with which other threads wake the driver.
    pub fn handle(&self) -> (handle: NotifyHandle)
        requires
            self.inv(),
        ensures
            handle.port == self@.port,
            handle.overlapped.driver == self@.port,
            handle.user_data == self@.notify,
    {
        NotifyHandle::new(self.port, self.notify_overlapped, self.notify_user_data)
    }

    /// Takes an idle operation out of the driver and hands it back. An
    /// operation that is under way stays where it is, and so does the
    /// operation behind a key of another driver.
    pub fn reclaim(&mut self, key: &Key) -> (op: Option<O>)
        requires
            old(self).inv(),
        ensures
            final(self).inv(),
            final(self)@ == if old(self)@.made(*key) {
                old(self)@.reclaim(key.user_data)
            } else {
                old(self)@
            },
            op is Some <==> old(self)@.made(*key) && old(self)@.idle(key.user_data),
            op is Some ==> op->0 == old(self).operations()[key.user_data],
            final(self).operations() == if op is Some {
                old(self).operations().remove(key.user_data)
            } else {
                old(self).operations()
            },
    {
        let user_data = key.user_data;
        if key.header.driver != self.port {
            return None;
        }
        proof {
            lemma_step_wf(self@, Step::Reclaim(user_data));
        }
        let idle = match self.states.get(&user_data) {
            Some(OpState::Idle) => true,
            _ => false,
        };
        if idle {
            self.states.remove(&user_data);
            let op = self.ops.remove(&user_data);
            proof {
                assert(self.operations().dom() =~= self@.cells.dom());
            }
            op
        } else {
            None
        }
    }
}

impl<O> AsRawFd for Driver<O> {
    fn as_raw_fd(&self) -> (fd: RawFd)
        ensures
            fd == self@.port,
    {
        self.port
    }
}

/// A notify handle to the inner driver.
#[derive(Clone, Copy, Debug, PartialEq, Eq, Structural)]
pub struct NotifyHandle {
    pub port: RawFd,
    pub overlapped: Overlapped,
    pub user_data: usize,
}

impl NotifyHandle {
    pub fn new(port: RawFd, overlapped: Overlapped, user_data: usize) -> (handle: NotifyHandle)
        ensures
            handle == (NotifyHandle { port, overlapped, user_data }),
    {
        NotifyHandle { port, overlapped, user_data }
    }

    /// Notify the inner driver: the result is the identifier to post to the
    /// port, which the driver takes for a wakeup.
    pub fn notify(&self) -> (user_data: usize)
        ensures
            user_data == self.user_data,
    {
        self.user_data
    }
}

} // verus!
