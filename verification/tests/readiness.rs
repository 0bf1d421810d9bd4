use compio_driver::poll::op::{
    retried, Accept, Connect, ReadAt, RecvFromImpl, RecvImpl, SendImpl, SendToImpl, Sync, WriteAt,
};
use compio_driver::poll::{
    completed, or_wait, ready, syscall_result, Decision, Event, Interest, Submit, Syscall, Target,
    WaitArg,
};
use compio_driver::{Error, ErrorKind, Poll};

const AGAIN: Error = Error { kind: ErrorKind::WouldBlock, code: 11 };
const IN_PROGRESS: Error = Error { kind: ErrorKind::InProgress, code: 115 };
const BAD_FD: Error = Error { kind: ErrorKind::Other, code: 9 };

fn readable() -> Event {
    Event::new(1, true, false)
}

fn writable() -> Event {
    Event::new(1, false, true)
}

fn wait(fd: i32, interest: Interest) -> WaitArg {
    WaitArg { fd, interest }
}

#[test]
fn minus_one_is_the_error_that_was_set() {
    assert_eq!(syscall_result(-1, BAD_FD), Err(BAD_FD));
    assert_eq!(syscall_result(0, BAD_FD), Ok(0));
    assert_eq!(syscall_result(16, BAD_FD), Ok(16));
    assert_eq!(syscall_result(isize::MAX, AGAIN), Ok(isize::MAX as usize));
    assert_eq!(syscall_result(-2, BAD_FD), Err(BAD_FD));
    assert_eq!(syscall_result(isize::MIN, AGAIN), Err(AGAIN));
}

#[test]
fn a_retried_call_is_answered_by_what_it_was() {
    let read = Syscall::Readv { fd: 6, slices: 1 };
    let check = Syscall::SocketError { fd: 6 };
    assert_eq!(retried(read, Ok(3), 111), Poll::Ready(Ok(3)));
    assert_eq!(retried(read, Err(AGAIN), 0), Poll::Pending);
    assert_eq!(retried(read, Err(BAD_FD), 0), Poll::Ready(Err(BAD_FD)));
    assert_eq!(retried(check, Ok(0), 0), Poll::Ready(Ok(0)));
    assert_eq!(retried(check, Ok(0), 111), Poll::Ready(Err(Error::from_raw_os_error(111))));
    assert_eq!(retried(check, Err(AGAIN), 0), Poll::Ready(Err(AGAIN)));
    assert_eq!(retried(Syscall::Accept { fd: 6 }, Err(IN_PROGRESS), 5), Poll::Pending);
}

#[test]
fn a_final_call_completes_or_fails() {
    assert_eq!(completed(Ok(16)), Ok(Decision::Completed(16)));
    assert_eq!(completed(Err(BAD_FD)), Err(BAD_FD));
    assert_eq!(completed(Err(AGAIN)), Err(AGAIN));
}

#[test]
fn a_tried_call_waits_if_it_would_block() {
    let arg = wait(5, Interest::Readable);
    assert_eq!(or_wait(Ok(3), arg), Ok(Decision::Completed(3)));
    assert_eq!(or_wait(Err(AGAIN), arg), Ok(Decision::Wait(arg)));
    assert_eq!(or_wait(Err(IN_PROGRESS), arg), Ok(Decision::Wait(arg)));
    assert_eq!(or_wait(Err(BAD_FD), arg), Err(BAD_FD));
}

#[test]
fn a_retried_call_is_pending_if_it_would_block() {
    assert_eq!(ready(Ok(3)), Poll::Ready(Ok(3)));
    assert_eq!(ready(Err(AGAIN)), Poll::Pending);
    assert_eq!(ready(Err(IN_PROGRESS)), Poll::Pending);
    assert_eq!(ready(Err(BAD_FD)), Poll::Ready(Err(BAD_FD)));
}

#[test]
fn decisions_name_descriptor_and_direction() {
    assert_eq!(Decision::wait_readable(4), Decision::Wait(wait(4, Interest::Readable)));
    assert_eq!(Decision::wait_writable(4), Decision::Wait(wait(4, Interest::Writable)));
    assert_eq!(Decision::wait_for(7, Interest::Writable), Decision::wait_writable(7));
}

#[test]
fn events_are_ready_for_their_direction() {
    assert!(readable().is_ready_for(Interest::Readable));
    assert!(!readable().is_ready_for(Interest::Writable));
    assert!(writable().is_ready_for(Interest::Writable));
    assert!(!writable().is_ready_for(Interest::Readable));
    assert_eq!(Event::new(3, true, true).key, 3);
}

#[test]
fn targets_with_positioned_io_at_once() {
    assert!(Target::Linux.positioned_io_at_once());
    assert!(Target::Android.positioned_io_at_once());
    assert!(Target::Illumos.positioned_io_at_once());
    assert!(!Target::Other.positioned_io_at_once());
}

#[test]
fn submit_decides_by_its_shape() {
    let call = Syscall::Fsync { fd: 3 };
    let arg = wait(3, Interest::Writable);
    assert_eq!(Submit::Run(call).call(), Some(call));
    assert_eq!(Submit::Try(call, arg).call(), Some(call));
    assert_eq!(Submit::Wait(arg).call(), None);
    assert_eq!(Submit::Run(call).decide(Ok(0)), Ok(Decision::Completed(0)));
    assert_eq!(Submit::Run(call).decide(Err(AGAIN)), Err(AGAIN));
    assert_eq!(Submit::Try(call, arg).decide(Err(AGAIN)), Ok(Decision::Wait(arg)));
    assert_eq!(Submit::Try(call, arg).decide(Err(BAD_FD)), Err(BAD_FD));
    assert_eq!(Submit::Try(call, arg).decide(Ok(2)), Ok(Decision::Completed(2)));
    assert_eq!(Submit::Wait(arg).decide(Ok(2)), Ok(Decision::Wait(arg)));
    assert_eq!(Submit::Wait(arg).decide(Err(BAD_FD)), Ok(Decision::Wait(arg)));
}

#[test]
fn read_at_of_a_regular_file() {
    let op = ReadAt { fd: 3, offset: 0, len: 16 };
    let call = Syscall::Pread { fd: 3, len: 16, offset: 0 };
    let submit = op.pre_submit(Target::Linux);
    assert_eq!(submit, Submit::Run(call));
    assert_eq!(submit.decide(syscall_result(16, BAD_FD)), Ok(Decision::Completed(16)));
    assert_eq!(submit.decide(syscall_result(-1, BAD_FD)), Err(BAD_FD));
    assert_eq!(op.pre_submit(Target::Android), Submit::Run(call));
    assert_eq!(op.pre_submit(Target::Illumos), Submit::Run(call));
    assert_eq!(op.pre_submit(Target::Other), Submit::Wait(wait(3, Interest::Readable)));
    assert_eq!(op.on_event(&readable()), call);
    assert_eq!(ready(syscall_result(16, BAD_FD)), Poll::Ready(Ok(16)));
}

#[test]
fn write_at() {
    let op = WriteAt { fd: 3, offset: 8, len: 4 };
    let call = Syscall::Pwrite { fd: 3, len: 4, offset: 8 };
    assert_eq!(op.pre_submit(Target::Linux), Submit::Run(call));
    assert_eq!(op.pre_submit(Target::Other), Submit::Wait(wait(3, Interest::Writable)));
    assert_eq!(op.on_event(&writable()), call);
}

#[test]
fn sync_is_never_waited_for() {
    let submit = Sync { fd: 3 }.pre_submit();
    assert_eq!(submit, Submit::Run(Syscall::Fsync { fd: 3 }));
    assert_eq!(submit.decide(Ok(0)), Ok(Decision::Completed(0)));
    assert_eq!(submit.decide(Err(AGAIN)), Err(AGAIN));
}

#[test]
fn accept_waits_for_a_peer() {
    let op = Accept { fd: 6 };
    let submit = op.pre_submit();
    assert_eq!(submit, Submit::Try(Syscall::Accept { fd: 6 }, wait(6, Interest::Readable)));
    assert_eq!(submit.decide(syscall_result(-1, AGAIN)), Ok(Decision::wait_readable(6)));
    assert_eq!(submit.decide(syscall_result(7, AGAIN)), Ok(Decision::Completed(7)));
    assert_eq!(op.on_event(&readable()), Syscall::Accept { fd: 6 });
    assert_eq!(ready(syscall_result(7, AGAIN)), Poll::Ready(Ok(7)));
    assert_eq!(ready(syscall_result(-1, AGAIN)), Poll::Pending);
}

#[test]
fn connect_reads_how_the_attempt_ended() {
    let op = Connect { fd: 6 };
    let submit = op.pre_submit();
    assert_eq!(submit, Submit::Try(Syscall::Connect { fd: 6 }, wait(6, Interest::Writable)));
    assert_eq!(submit.decide(Err(IN_PROGRESS)), Ok(Decision::wait_writable(6)));
    assert_eq!(submit.decide(Ok(0)), Ok(Decision::Completed(0)));
    assert_eq!(op.on_event(&writable()), Syscall::SocketError { fd: 6 });
    assert_eq!(Connect::connected(Ok(0), 0), Poll::Ready(Ok(0)));
    assert_eq!(Connect::connected(Ok(0), 111), Poll::Ready(Err(Error::from_raw_os_error(111))));
    assert_eq!(Connect::connected(Err(BAD_FD), 0), Poll::Ready(Err(BAD_FD)));
    assert_eq!(Connect::connected(Err(BAD_FD), 111), Poll::Ready(Err(BAD_FD)));
    assert_eq!(Connect::connected(Err(AGAIN), 0), Poll::Ready(Err(AGAIN)));
}

#[test]
fn recv_and_send_wait_first() {
    let recv = RecvImpl { fd: 6, slices: 2 };
    assert_eq!(recv.pre_submit(), Submit::Wait(wait(6, Interest::Readable)));
    assert_eq!(recv.on_event(&readable()), Syscall::Readv { fd: 6, slices: 2 });
    let send = SendImpl { fd: 6, slices: 3 };
    assert_eq!(send.pre_submit(), Submit::Wait(wait(6, Interest::Writable)));
    assert_eq!(send.on_event(&writable()), Syscall::Writev { fd: 6, slices: 3 });
}

#[test]
fn recv_from_and_send_to_try_first() {
    let recv = RecvFromImpl { fd: 6 };
    assert_eq!(
        recv.pre_submit(),
        Submit::Try(Syscall::Recvmsg { fd: 6 }, wait(6, Interest::Readable))
    );
    assert_eq!(recv.on_event(&readable()), Syscall::Recvmsg { fd: 6 });
    let send = SendToImpl { fd: 6 };
    assert_eq!(
        send.pre_submit(),
        Submit::Try(Syscall::Sendmsg { fd: 6 }, wait(6, Interest::Writable))
    );
    assert_eq!(send.on_event(&writable()), Syscall::Sendmsg { fd: 6 });
}
