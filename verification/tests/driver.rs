use compio_driver::{
    AsRawFd, Delivery, Driver, Entry, Error, ErrorKind, Key, OpCode, OpState, OpType, Poll,
    ProactorBuilder, Submission,
};

/// An operation that answers what it was told to and counts its calls.
#[derive(Debug)]
struct Scripted {
    kind: OpType,
    answer: Poll<Result<usize, Error>>,
    body: Result<usize, Error>,
    operated: usize,
    blocked: usize,
    canceled: usize,
    seen_user_data: usize,
}

impl Scripted {
    fn overlapped(answer: Poll<Result<usize, Error>>) -> Scripted {
        Scripted {
            kind: OpType::Overlapped,
            answer,
            body: Ok(0),
            operated: 0,
            blocked: 0,
            canceled: 0,
            seen_user_data: 0,
        }
    }

    fn blocking(body: Result<usize, Error>) -> Scripted {
        Scripted { kind: OpType::Blocking, body, ..Scripted::overlapped(Poll::Pending) }
    }

    fn event(event: isize, body: Result<usize, Error>) -> Scripted {
        Scripted { kind: OpType::Event(event), body, ..Scripted::overlapped(Poll::Pending) }
    }
}

impl OpCode for Scripted {
    fn overlapped(&self) -> bool {
        self.kind == OpType::Overlapped
    }

    fn has_cancel(&self) -> bool {
        true
    }

    fn submits(&self, _user_data: usize, _after: Self, _answer: Poll<Result<usize, Error>>) -> bool {
        true
    }

    fn runs(&self, _after: Self, _result: Result<usize, Error>) -> bool {
        true
    }

    fn op_type(&self) -> OpType {
        self.kind
    }

    fn operate(&mut self, user_data: usize) -> Poll<Result<usize, Error>> {
        self.operated += 1;
        self.seen_user_data = user_data;
        self.answer
    }

    fn cancel(&mut self, user_data: usize) -> Result<(), Error> {
        self.canceled += 1;
        self.seen_user_data = user_data;
        Err(Error::from_raw_os_error(1168))
    }

    fn operate_blocking(&mut self) -> Result<usize, Error> {
        self.blocked += 1;
        self.body
    }
}

/// An operation that keeps every default of the trait.
struct Plain;

impl OpCode for Plain {
    fn submits(&self, _user_data: usize, _after: Self, _answer: Poll<Result<usize, Error>>) -> bool {
        true
    }

    fn runs(&self, _after: Self, _result: Result<usize, Error>) -> bool {
        true
    }

    fn operate(&mut self, _user_data: usize) -> Poll<Result<usize, Error>> {
        Poll::Pending
    }

    fn operate_blocking(&mut self) -> Result<usize, Error> {
        Ok(0)
    }
}

fn driver(limit: usize) -> Driver<Scripted> {
    Driver::new(&ProactorBuilder::new().thread_pool_limit(limit), 77)
}

fn polled(driver: &mut Driver<Scripted>, raw: Vec<Entry>) -> Vec<Entry> {
    let mut out = Vec::new();
    driver.poll(&raw, &mut out);
    out
}

#[test]
fn new_driver_is_named_by_its_port() {
    let d = driver(4);
    assert_eq!(d.as_raw_fd(), 77);
    let h = d.handle();
    assert_eq!(h.port, 77);
    assert_eq!(h.overlapped.driver, 77);
}

#[test]
fn keys_are_distinct_and_never_the_wakeup_identifier() {
    let mut d = driver(4);
    let wake = d.handle().notify();
    let a = d.create_op(Scripted::overlapped(Poll::Pending));
    let b = d.create_op(Scripted::overlapped(Poll::Pending));
    let c = d.create_op(Scripted::overlapped(Poll::Pending));
    assert_eq!(wake, 0);
    assert_eq!(a.user_data(), 1);
    assert_eq!(b.user_data(), 2);
    assert_eq!(c.user_data(), 3);
    assert_eq!(a.driver(), 77);
    assert_eq!(d.state(&a), Some(OpState::Idle));
    assert_eq!(d.state(&Key::new(78, 1)), None);
    assert_eq!(d.state(&Key::new(77, 9)), None);
}

#[test]
fn inline_completion() {
    let mut d = driver(4);
    let key = d.create_op(Scripted::overlapped(Poll::Ready(Ok(16))));
    assert_eq!(d.push(&key), Poll::Ready(Ok(16)));
    assert_eq!(d.state(&key), Some(OpState::Idle));
    assert_eq!(polled(&mut d, vec![]), vec![]);
    let op = d.reclaim(&key).unwrap();
    assert_eq!(op.operated, 1);
    assert_eq!(op.seen_user_data, key.user_data());
}

#[test]
fn submit_failure_is_returned_inline() {
    let mut d = driver(4);
    let refused = Error::from_raw_os_error(6);
    let key = d.create_op(Scripted::overlapped(Poll::Ready(Err(refused))));
    assert_eq!(d.push(&key), Poll::Ready(Err(refused)));
    assert_eq!(d.state(&key), Some(OpState::Idle));
}

#[test]
fn deferred_completion() {
    let mut d = driver(4);
    let key = d.create_op(Scripted::overlapped(Poll::Pending));
    assert_eq!(d.push(&key), Poll::Pending);
    assert_eq!(d.state(&key), Some(OpState::Submitted));
    let out = polled(&mut d, vec![Entry::new(key.user_data(), Ok(1))]);
    assert_eq!(out.len(), 1);
    assert_eq!(out[0].user_data(), key.user_data());
    assert!(out[0].into_result().is_ok());
    assert_eq!(d.state(&key), Some(OpState::Idle));
}

#[test]
fn cross_thread_wakeup() {
    let mut d = driver(4);
    let wake = d.handle().notify();
    assert_eq!(polled(&mut d, vec![Entry::new(wake, Ok(0))]), vec![]);
    assert_eq!(d.create_entry(Entry::new(wake, Err(Error::from_raw_os_error(5)))), None);
}

#[test]
fn wakeups_between_completions_are_dropped() {
    let mut d = driver(4);
    let wake = d.handle().notify();
    let a = d.create_op(Scripted::overlapped(Poll::Pending));
    let b = d.create_op(Scripted::overlapped(Poll::Pending));
    assert_eq!(d.push(&a), Poll::Pending);
    assert_eq!(d.push(&b), Poll::Pending);
    let raw = vec![
        Entry::new(wake, Ok(0)),
        Entry::new(b.user_data(), Ok(20)),
        Entry::new(wake, Ok(0)),
        Entry::new(a.user_data(), Err(Error::from_raw_os_error(5))),
        Entry::new(wake, Ok(0)),
    ];
    let mut out = vec![Entry::new(99, Ok(9))];
    d.poll(&raw, &mut out);
    assert_eq!(
        out,
        vec![
            Entry::new(99, Ok(9)),
            Entry::new(b.user_data(), Ok(20)),
            Entry::new(a.user_data(), Err(Error::from_raw_os_error(5))),
        ]
    );
    assert_eq!(d.state(&a), Some(OpState::Idle));
    assert_eq!(d.state(&b), Some(OpState::Idle));
}

#[test]
fn cancellation_race_success_side() {
    let mut d = driver(4);
    let key = d.create_op(Scripted::overlapped(Poll::Pending));
    assert_eq!(d.push(&key), Poll::Pending);
    assert!(!d.cancel(&key));
    assert_eq!(d.state(&key), Some(OpState::Submitted));
    assert!(d.reclaim(&key).is_none());
    let aborted = Error::from_raw_os_error(995);
    let out = polled(&mut d, vec![Entry::new(key.user_data(), Err(aborted))]);
    assert_eq!(out, vec![Entry::new(key.user_data(), Err(aborted))]);
    let op = d.reclaim(&key).unwrap();
    assert_eq!(op.canceled, 1);
    assert_eq!(op.seen_user_data, key.user_data());
}

#[test]
fn cancel_of_an_unknown_key_does_nothing() {
    let mut d = driver(4);
    assert!(!d.cancel(&Key::new(77, 5)));
    assert!(!d.cancel_packet(&Key::new(77, 5), Ok(())));
    assert!(d.reclaim(&Key::new(77, 5)).is_none());
}

#[test]
fn worker_pool_refusal() {
    let mut d = driver(1);
    let first = d.create_op(Scripted::blocking(Ok(3)));
    let second = d.create_op(Scripted::blocking(Ok(4)));
    assert_eq!(d.push(&first), Poll::Pending);
    assert_eq!(d.state(&first), Some(OpState::Dispatched));
    let refused = d.push(&second);
    assert_eq!(refused, Poll::Ready(Err(Error::busy())));
    assert_eq!(refused, Poll::Ready(Err(Error::new(ErrorKind::Other, 170))));
    assert_eq!(d.state(&second), Some(OpState::Idle));
}

#[test]
fn refused_push_succeeds_once_a_worker_is_free() {
    let mut d = driver(1);
    let first = d.create_op(Scripted::blocking(Ok(3)));
    let second = d.create_op(Scripted::blocking(Ok(4)));
    assert_eq!(d.push(&first), Poll::Pending);
    assert!(matches!(d.push(&second), Poll::Ready(Err(e)) if e.is_busy()));
    assert!(matches!(d.push(&second), Poll::Ready(Err(e)) if e.is_busy()));
    let out = polled(&mut d, vec![Entry::new(first.user_data(), Ok(3))]);
    assert_eq!(out, vec![Entry::new(first.user_data(), Ok(3))]);
    assert_eq!(d.state(&first), Some(OpState::Idle));
    assert_eq!(d.push(&second), Poll::Pending);
    assert_eq!(d.state(&second), Some(OpState::Dispatched));
    assert!(matches!(d.push(&first), Poll::Ready(Err(e)) if e.is_busy()));
}

#[test]
fn pool_without_workers_refuses_everything() {
    let mut d = driver(0);
    let key = d.create_op(Scripted::blocking(Ok(3)));
    assert_eq!(d.push(&key), Poll::Ready(Err(Error::busy())));
    let op = d.reclaim(&key).unwrap();
    assert_eq!(op.operated, 0);
    assert_eq!(op.blocked, 0);
}

#[test]
fn event_wait() {
    let mut d = driver(4);
    let key = d.create_op(Scripted::event(31, Ok(5)));
    assert_eq!(d.push(&key), Poll::Pending);
    assert_eq!(d.state(&key), Some(OpState::Arming(31)));
    assert_eq!(d.register(&key, Ok(())), Poll::Pending);
    assert_eq!(d.state(&key), Some(OpState::Waiting));
    let out = polled(&mut d, vec![Entry::new(key.user_data(), Ok(0))]);
    assert_eq!(out, vec![Entry::new(key.user_data(), Ok(5))]);
    assert_eq!(d.state(&key), Some(OpState::Idle));
    let op = d.reclaim(&key).unwrap();
    assert_eq!(op.blocked, 1);
    assert_eq!(op.operated, 0);
}

#[test]
fn event_wait_reports_the_failure_of_the_body() {
    let mut d = driver(4);
    let failed = Error::from_raw_os_error(13);
    let key = d.create_op(Scripted::event(31, Err(failed)));
    assert_eq!(d.push(&key), Poll::Pending);
    assert_eq!(d.register(&key, Ok(())), Poll::Pending);
    assert_eq!(
        d.create_entry(Entry::new(key.user_data(), Ok(0))),
        Some(Entry::new(key.user_data(), Err(failed)))
    );
}

#[test]
fn failed_registration_is_returned_by_the_push() {
    let mut d = driver(4);
    let key = d.create_op(Scripted::event(31, Ok(5)));
    assert_eq!(d.push(&key), Poll::Pending);
    let failed = Error::from_raw_os_error(87);
    assert_eq!(d.register(&key, Err(failed)), Poll::Ready(Err(failed)));
    assert_eq!(d.state(&key), Some(OpState::Idle));
    assert!(!d.cancel(&key));
    let out = polled(&mut d, vec![Entry::new(key.user_data(), Ok(0))]);
    assert_eq!(out, vec![Entry::new(key.user_data(), Ok(0))]);
    assert_eq!(d.push(&key), Poll::Pending);
    assert_eq!(d.state(&key), Some(OpState::Arming(31)));
}

#[test]
fn canceled_event_wait_is_reported_as_canceled() {
    let mut d = driver(4);
    let key = d.create_op(Scripted::event(31, Ok(5)));
    assert_eq!(d.push(&key), Poll::Pending);
    assert_eq!(d.register(&key, Ok(())), Poll::Pending);
    assert!(d.cancel(&key));
    assert!(d.cancel_packet(&key, Ok(())));
    assert_eq!(d.state(&key), Some(OpState::Waiting));
    let out = polled(&mut d, vec![Entry::new(key.user_data(), Ok(0))]);
    assert_eq!(out, vec![Entry::new(key.user_data(), Err(Error::canceled()))]);
    assert_eq!(out[0].into_result().unwrap_err().raw_os_error(), 1223);
    assert_eq!(d.state(&key), Some(OpState::Idle));
    let again = polled(&mut d, vec![Entry::new(key.user_data(), Ok(8))]);
    assert_eq!(again, vec![Entry::new(key.user_data(), Ok(8))]);
    let op = d.reclaim(&key).unwrap();
    assert_eq!(op.blocked, 0);
    assert_eq!(op.canceled, 1);
}

#[test]
fn failed_packet_cancel_leaves_the_wait_alive() {
    let mut d = driver(4);
    let key = d.create_op(Scripted::event(31, Ok(5)));
    assert_eq!(d.push(&key), Poll::Pending);
    assert_eq!(d.register(&key, Ok(())), Poll::Pending);
    assert!(d.cancel(&key));
    assert!(!d.cancel_packet(&key, Err(Error::from_raw_os_error(1))));
    let out = polled(&mut d, vec![Entry::new(key.user_data(), Ok(0))]);
    assert_eq!(out, vec![Entry::new(key.user_data(), Ok(5))]);
}

#[test]
fn entries_of_unknown_operations_pass_through() {
    let mut d = driver(4);
    let stray = Entry::new(4242, Err(Error::from_raw_os_error(2)));
    assert_eq!(d.create_entry(stray), Some(stray));
    assert_eq!(d.complete(stray), Delivery::Forward(stray));
    assert_eq!(d.complete(Entry::new(0, Ok(1))), Delivery::Wakeup);
}

#[test]
fn complete_tells_what_an_entry_is() {
    let mut d = driver(4);
    let waiting = d.create_op(Scripted::event(31, Ok(5)));
    let canceled = d.create_op(Scripted::event(32, Ok(6)));
    for key in [&waiting, &canceled] {
        assert_eq!(d.push(key), Poll::Pending);
        assert_eq!(d.register(key, Ok(())), Poll::Pending);
    }
    assert!(d.cancel_packet(&canceled, Ok(())));
    assert_eq!(
        d.complete(Entry::new(waiting.user_data(), Ok(0))),
        Delivery::Event(waiting.user_data())
    );
    assert_eq!(
        d.complete(Entry::new(canceled.user_data(), Ok(0))),
        Delivery::Canceled(canceled.user_data())
    );
    assert_eq!(d.state(&waiting), Some(OpState::Idle));
    assert_eq!(d.state(&canceled), Some(OpState::Idle));
}

#[test]
fn submit_follows_the_answer_of_the_operation() {
    let mut d = driver(1);
    let a = d.create_op(Scripted::overlapped(Poll::Pending));
    let b = d.create_op(Scripted::overlapped(Poll::Pending));
    let c = d.create_op(Scripted::overlapped(Poll::Pending));
    let e = d.create_op(Scripted::overlapped(Poll::Pending));
    assert_eq!(d.submit(&a, Submission::Overlapped(Poll::Ready(Ok(2)))), Poll::Ready(Ok(2)));
    assert_eq!(d.state(&a), Some(OpState::Idle));
    assert_eq!(d.submit(&a, Submission::Overlapped(Poll::Pending)), Poll::Pending);
    assert_eq!(d.state(&a), Some(OpState::Submitted));
    assert_eq!(d.submit(&b, Submission::Blocking), Poll::Pending);
    assert_eq!(d.state(&b), Some(OpState::Dispatched));
    assert_eq!(d.submit(&c, Submission::Blocking), Poll::Ready(Err(Error::busy())));
    assert_eq!(d.state(&c), Some(OpState::Idle));
    assert_eq!(d.submit(&e, Submission::Event(9)), Poll::Pending);
    assert_eq!(d.state(&e), Some(OpState::Arming(9)));
}

#[test]
fn a_cell_in_flight_cannot_be_reclaimed() {
    let mut d = driver(4);
    let overlapped = d.create_op(Scripted::overlapped(Poll::Pending));
    let blocking = d.create_op(Scripted::blocking(Ok(1)));
    let event = d.create_op(Scripted::event(3, Ok(1)));
    for key in [&overlapped, &blocking, &event] {
        assert_eq!(d.push(key), Poll::Pending);
    }
    assert!(d.reclaim(&event).is_none());
    assert_eq!(d.register(&event, Ok(())), Poll::Pending);
    for key in [&overlapped, &blocking, &event] {
        assert!(d.reclaim(key).is_none());
        assert!(d.state(key).is_some());
    }
    let raw: Vec<Entry> =
        [&overlapped, &blocking, &event].iter().map(|k| Entry::new(k.user_data(), Ok(0))).collect();
    assert_eq!(polled(&mut d, raw).len(), 3);
    for key in [&overlapped, &blocking, &event] {
        assert!(d.reclaim(key).is_some());
        assert_eq!(d.state(key), None);
        assert!(d.reclaim(key).is_none());
    }
}

#[test]
fn attach_is_needed_once_per_handle() {
    let mut d = driver(4);
    assert!(d.attach(5));
    assert!(!d.attach(5));
    assert!(d.attach(6));
    assert!(!d.attach(5));
}

#[test]
fn defaults_of_an_operation() {
    let mut op = Plain;
    assert_eq!(op.op_type(), OpType::Overlapped);
    assert_eq!(op.cancel(3), Ok(()));
    let mut d: Driver<Plain> = Driver::new(&ProactorBuilder::new(), 1);
    let key = d.create_op(op);
    assert_eq!(d.push(&key), Poll::Pending);
    assert_eq!(d.state(&key), Some(OpState::Submitted));
    assert!(!d.cancel(&key));
}

#[test]
fn try_create_op_registers_like_create_op() {
    let mut d = driver(4);
    let a = d.try_create_op(Scripted::blocking(Ok(1))).unwrap();
    let b = d.create_op(Scripted::blocking(Ok(2)));
    let c = d.try_create_op(Scripted::blocking(Ok(3))).unwrap();
    assert_eq!((a.user_data(), b.user_data(), c.user_data()), (1, 2, 3));
    assert_eq!(d.state(&c), Some(OpState::Idle));
    assert_eq!(d.reclaim(&c).unwrap().body, Ok(3));
}

#[test]
fn a_key_of_another_driver_is_left_alone() {
    let mut d = driver(4);
    let own = d.create_op(Scripted::event(31, Ok(5)));
    assert_eq!(d.push(&own), Poll::Pending);
    assert_eq!(d.register(&own, Ok(())), Poll::Pending);
    let forged = Key::new(78, own.user_data());
    assert_eq!(d.state(&forged), None);
    assert!(!d.cancel(&forged));
    assert!(!d.cancel_packet(&forged, Ok(())));
    assert!(d.reclaim(&forged).is_none());
    assert_eq!(d.state(&own), Some(OpState::Waiting));
    let out = polled(&mut d, vec![Entry::new(own.user_data(), Ok(0))]);
    assert_eq!(out, vec![Entry::new(own.user_data(), Ok(5))]);
    assert!(d.reclaim(&forged).is_none());
    let op = d.reclaim(&own).unwrap();
    assert_eq!(op.canceled, 0);
    assert_eq!(op.blocked, 1);
}

#[test]
fn an_operation_is_submitted_under_the_identifier_of_its_key() {
    let mut d = driver(4);
    let first = d.create_op(Scripted::overlapped(Poll::Pending));
    let second = d.create_op(Scripted::overlapped(Poll::Ready(Ok(1))));
    assert_eq!(d.push(&second), Poll::Ready(Ok(1)));
    assert_eq!(d.push(&first), Poll::Pending);
    assert!(d.reclaim(&first).is_none());
    let op = d.reclaim(&second).unwrap();
    assert_eq!(op.seen_user_data, second.user_data());
    assert_eq!(op.operated, 1);
    polled(&mut d, vec![Entry::new(first.user_data(), Ok(0))]);
    let op = d.reclaim(&first).unwrap();
    assert_eq!(op.seen_user_data, first.user_data());
    assert_eq!(op.operated, 1);
}

#[test]
fn poll_leaves_operations_alone_that_no_entry_names() {
    let mut d = driver(4);
    let waiting = d.create_op(Scripted::event(31, Ok(5)));
    let other = d.create_op(Scripted::event(32, Ok(6)));
    for key in [&waiting, &other] {
        assert_eq!(d.push(key), Poll::Pending);
        assert_eq!(d.register(key, Ok(())), Poll::Pending);
    }
    let out = polled(&mut d, vec![Entry::new(waiting.user_data(), Ok(0))]);
    assert_eq!(out, vec![Entry::new(waiting.user_data(), Ok(5))]);
    assert_eq!(d.state(&other), Some(OpState::Waiting));
    polled(&mut d, vec![Entry::new(other.user_data(), Ok(0))]);
    assert_eq!(d.reclaim(&other).unwrap().blocked, 1);
    assert_eq!(d.reclaim(&waiting).unwrap().blocked, 1);
}
