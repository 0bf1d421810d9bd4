//! What holds of every driver, stated over its state machine.

use vstd::prelude::*;
use crate::entry::Entry;
use crate::error::Error;
use crate::state::{
    carries, lemma_deliver_all_wf, lemma_dispatched_set, Delivery, OpState, State, Step, Submission,
};
use crate::task::Poll;

verus! {

/// An entry that is not a wakeup.
pub open spec fn reportable(s: State) -> spec_fn(Entry) -> bool {
    |raw: Entry| raw.user_data != s.notify
}

/// Lifetime of a cell: while the kernel or a worker holds an operation, its
/// cell stays registered and in flight, whatever happens to the driver,
/// until the raw entry that carries its identifier is taken from the port.
pub proof fn lemma_cell_outlives_flight(s: State, k: usize, step: Step)
    requires
        s.wf(),
        s.in_flight(k),
        !(step matches Step::Deliver(raw) && raw.user_data == k),
    ensures
        s.step(step).in_flight(k),
        s.step(step).cells[k] == s.cells[k],
        s.step(step).reclaim(k) == s.step(step),
{
}

/// The same over a whole batch of raw entries, none of which carries the
/// operation's identifier.
pub proof fn lemma_cell_outlives_batch(s: State, k: usize, raw: Seq<Entry>)
    requires
        s.wf(),
        s.in_flight(k),
        forall|i: int| 0 <= i < raw.len() ==> (#[trigger] raw[i]).user_data != k,
    ensures
        s.deliver_all(raw).in_flight(k),
    decreases raw.len(),
{
    if raw.len() > 0 {
        let front = raw.drop_last();
        assert forall|i: int| 0 <= i < front.len() implies (#[trigger] front[i]).user_data
            != k by {
            assert(front[i] == raw[i]);
        }
        lemma_cell_outlives_batch(s, k, front);
        lemma_deliver_all_wf(s, front);
        lemma_cell_outlives_flight(s.deliver_all(front), k, Step::Deliver(raw.last()));
    }
}

/// Wakeups are dropped: a raw entry is taken for a wakeup exactly if it
/// carries the wakeup identifier, and then the driver stays as it was.
pub proof fn lemma_wakeup_changes_nothing(s: State, raw: Entry)
    ensures
        s.delivery(raw) is Wakeup <==> raw.user_data == s.notify,
        raw.user_data == s.notify ==> s.deliver(raw) == s,
{
}

/// No operation is ever registered under the wakeup identifier, so no
/// completion of an operation is mistaken for a wakeup.
pub proof fn lemma_keys_differ_from_wakeup(s: State, k: usize)
    requires
        s.wf(),
        s.registered(k),
    ensures
        k != s.notify,
        s.create().registered(s.next) && s.next != s.notify,
{
}

/// Fresh identifiers: the identifier that the next operation gets is held
/// by no registered operation, so two registered operations never share
/// one, and registering leaves every other cell as it was.
pub proof fn lemma_identifiers_are_fresh(s: State, k: usize)
    requires
        s.wf(),
        s.registered(k),
    ensures
        !s.registered(s.next),
        k != s.next,
        s.create().idle(s.next),
        s.create().cells[k] == s.cells[k],
{
}

/// Nothing is made up: every entry that the driver reports for a batch
/// carries the identifier of one of the raw entries.
pub proof fn lemma_reports_only_what_came(s: State, raw: Seq<Entry>, out: Seq<Entry>)
    requires
        s.reports(raw, out),
    ensures
        forall|j: int| 0 <= j < out.len() ==> carries(raw, (#[trigger] out[j]).user_data),
    decreases raw.len(),
{
    if raw.len() > 0 {
        let front = raw.drop_last();
        let last = raw.len() - 1;
        let wakeup = s.deliver_all(front).delivery(raw.last()) is Wakeup;
        let rest = if wakeup {
            out
        } else {
            out.drop_last()
        };
        lemma_reports_only_what_came(s, front, rest);
        assert forall|j: int| 0 <= j < out.len() implies carries(
            raw,
            (#[trigger] out[j]).user_data,
        ) by {
            if !wakeup && j == out.len() - 1 {
                assert(raw[last].user_data == out[j].user_data);
            } else {
                assert(out[j] == rest[j]);
                let i = choose|i: int| 0 <= i < front.len() && front[i].user_data == out[j].user_data;
                assert(raw[i] == front[i]);
            }
        }
    }
}

/// Sentinel suppression: what the driver reports for a batch never carries
/// the wakeup identifier, and it reports exactly one entry for each raw
/// entry that is not a wakeup.
pub proof fn lemma_reports_no_wakeup(s: State, raw: Seq<Entry>, out: Seq<Entry>)
    requires
        s.wf(),
        s.reports(raw, out),
    ensures
        forall|j: int| 0 <= j < out.len() ==> (#[trigger] out[j]).user_data != s.notify,
        out.len() == raw.filter(reportable(s)).len(),
    decreases raw.len(),
{
    reveal(Seq::filter);
    if raw.len() > 0 {
        let front = raw.drop_last();
        let before = s.deliver_all(front);
        lemma_deliver_all_wf(s, front);
        match before.delivery(raw.last()) {
            Delivery::Wakeup => {
                lemma_reports_no_wakeup(s, front, out);
            },
            _ => {
                lemma_reports_no_wakeup(s, front, out.drop_last());
                assert forall|j: int| 0 <= j < out.len() implies (#[trigger] out[j]).user_data
                    != s.notify by {
                    if j < out.len() - 1 {
                        assert(out[j] == out.drop_last()[j]);
                    }
                }
            },
        }
    }
}

/// A batch of wakeups alone reports nothing and leaves the driver as it was.
pub proof fn lemma_wakeups_report_nothing(s: State, raw: Seq<Entry>, out: Seq<Entry>)
    requires
        s.wf(),
        forall|i: int| 0 <= i < raw.len() ==> (#[trigger] raw[i]).user_data == s.notify,
    ensures
        s.deliver_all(raw) == s,
        s.reports(raw, out) <==> out.len() == 0,
    decreases raw.len(),
{
    if raw.len() > 0 {
        let front = raw.drop_last();
        assert forall|i: int| 0 <= i < front.len() implies (#[trigger] front[i]).user_data
            == s.notify by {
            assert(front[i] == raw[i]);
        }
        lemma_wakeups_report_nothing(s, front, out);
        assert(raw.last() == raw[raw.len() - 1]);
    }
}

/// Busy backpressure: with every worker taken, pushing a blocking operation
/// returns the busy error and changes nothing. Once the entry of a
/// dispatched operation has been taken from the port, the same push is
/// pending and the operation is dispatched.
pub proof fn lemma_busy_backpressure(
    s: State,
    k: usize,
    worker: usize,
    result: Result<usize, Error>,
)
    requires
        s.wf(),
        s.idle(k),
        s.active == s.limit,
        s.cells.contains_key(worker),
        s.cells[worker] is Dispatched,
    ensures
        s.submit_result(Submission::Blocking) == Poll::<Result<usize, Error>>::Ready(
            Err(Error::spec_busy()),
        ),
        s.submit(k, Submission::Blocking) == s,
        ({
            let freed = s.deliver(Entry { user_data: worker, result });
            &&& freed.idle(k)
            &&& freed.submit_result(Submission::Blocking) is Pending
            &&& freed.submit(k, Submission::Blocking).cells[k] is Dispatched
        }),
{
    lemma_dispatched_set(s, worker, OpState::Idle);
    assert(s.dispatched().contains(worker));
    assert(s.dispatched().len() == s.dispatched().remove(worker).len() + 1);
}

/// A push that does not return pending leaves the driver as it was: nothing
/// is in flight for the operation, which may be pushed again.
pub proof fn lemma_ready_push_leaves_no_trace(s: State, k: usize, sub: Submission)
    requires
        s.wf(),
        s.idle(k),
    ensures
        s.submit_result(sub) is Ready ==> s.submit(k, sub) == s,
        s.submit_result(sub) is Pending ==> s.submit(k, sub).busy(k),
{
}

/// One push per completion: an operation that has been pushed stays busy, so
/// that it cannot be pushed again, until its raw entry is taken from the
/// port or the kernel fails to arm its wait packet.
pub proof fn lemma_one_push_per_completion(s: State, k: usize, step: Step)
    requires
        s.wf(),
        s.busy(k),
        !(step matches Step::Deliver(raw) && raw.user_data == k),
        !(step matches Step::Register(j, outcome) && j == k && outcome is Err),
    ensures
        s.step(step).busy(k),
        forall|sub: Submission| #[trigger] s.submit(k, sub) == s,
{
}

/// A canceled wait is reported once: after the kernel has taken back the
/// wait packet of an operation, a completion has to be posted for it; the
/// raw entry that carries its identifier is reported as canceled whatever
/// result it carries, the operation is idle afterwards and its wait packet
/// gone, and a further raw entry with its identifier would pass through as
/// it came.
pub proof fn lemma_canceled_wait_is_reported_once(
    s: State,
    k: usize,
    first: Result<usize, Error>,
    second: Result<usize, Error>,
)
    requires
        s.wf(),
        s.waits.contains_key(k),
    ensures
        s.must_post(k, Ok(())),
        ({
            let canceled = s.cancel_packet(k, Ok(()));
            let raw = Entry { user_data: k, result: first };
            let after = canceled.deliver(raw);
            let again = Entry { user_data: k, result: second };
            &&& canceled.delivery(raw) == Delivery::Canceled(k)
            &&& after.idle(k)
            &&& !after.waits.contains_key(k)
            &&& after.delivery(again) == Delivery::Forward(again)
        }),
{
}

/// A wait that was not canceled ends with its event: the raw entry with the
/// operation's identifier is the end of the event wait, and the operation is
/// idle afterwards.
pub proof fn lemma_event_wait_ends(s: State, k: usize, result: Result<usize, Error>)
    requires
        s.wf(),
        s.waits.contains_key(k),
        !s.waits[k].cancelled,
    ensures
        s.delivery(Entry { user_data: k, result }) == Delivery::Event(k),
        s.deliver(Entry { user_data: k, result }).idle(k),
        !s.deliver(Entry { user_data: k, result }).waits.contains_key(k),
{
}

} // verus!
