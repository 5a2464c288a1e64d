//! The writer task of a queue: which record it writes next, what it answers, and when it
//! stops. The task runs it with what happens to it, and does what it says.
use bytes::Bytes;
use std::sync::Arc;
use tokio::sync::oneshot;
use vstd::prelude::*;

use crate::backpressure::{timed_out, told_after_waiting, Reply, WriteError};
use crate::channel::{send_answer, Answered, Outcome, Record};
use crate::losses::{
    nothing_reported, report_losses, report_of, reported_after, Counters, Failures, Report,
    Reported,
};
use crate::octets::octets;
use crate::tally::{Count, Counted};

verus! {

/// The record that is being written: its length, how long it may wait, and who waits to hear
/// of it.
pub struct Pending {
    pub len: usize,
    pub wait: u128,
    pub ack: Option<oneshot::Sender<Outcome>>,
}

/// What the writer task is doing.
pub enum Phase {
    /// It waits for a record, or for the time of the next report.
    Idle,
    /// It waits for the queue to take a record.
    Writing(Pending),
    /// The queue is closed. It takes out what the channel still holds, none of which can be
    /// placed any more.
    Draining,
    Stopped,
}

/// What happens to the writer task.
pub enum Event {
    /// It is time for a report.
    Tick,
    /// The channel gave a record, or nothing because it is empty and no more can come: every
    /// producer is gone, or the channel was closed.
    Received(Option<Record>),
    /// The queue answered, or the wait was over.
    Written(Reply),
}

/// A loss that is worth an error line.
#[derive(Clone, Copy, Debug, PartialEq, Eq, Structural)]
pub enum Loss {
    /// The queue refused a record of so many bytes.
    Refused { len: usize },
    /// The queue had no room for a record of so many bytes within so many nanoseconds.
    NoRoom { len: usize, wait: u128 },
}

/// A record that is done with: what became of it, what to log, and whom to answer.
pub struct Finished {
    pub outcome: Outcome,
    pub loss: Option<Loss>,
    pub ack: Option<oneshot::Sender<Outcome>>,
}

/// What the writer task does next.
pub enum Action {
    /// Say this, and wait for the next record or report.
    Say(Report),
    /// Offer this to the queue for no longer than `wait` nanoseconds.
    Write { data: Bytes, wait: u128 },
    /// Answer, and wait for the next record or report.
    Finish(Finished),
    /// The queue is closed: answer, close the channel so that it takes no more, and take out
    /// what it still holds.
    FinishAndDrain(Finished),
    /// The record is lost; whoever waits for it hears that the writer task is gone. Take out the
    /// next one.
    Discard,
    /// Nothing is left to come: say this and stop.
    Stop(Report),
}

/// Whether the event can happen in this phase.
pub open spec fn expects(phase: Phase, event: Event) -> bool {
    match (phase, event) {
        (Phase::Idle, Event::Tick) => true,
        (Phase::Idle, Event::Received(_)) => true,
        (Phase::Writing(_), Event::Written(_)) => true,
        (Phase::Draining, Event::Received(_)) => true,
        _ => false,
    }
}

/// Whether the queue said that it is closed.
pub open spec fn says_closed(reply: Reply) -> bool {
    reply == Reply::Refused(WriteError::QueueClosed)
}

/// Whether a record that got this reply is lost.
pub open spec fn is_lost(reply: Reply) -> bool {
    !(reply is Placed)
}

/// Whether the event means that a record is lost after the channel accepted it: the queue did
/// not place it, or it came out only after the queue was closed.
pub open spec fn loses(phase: Phase, event: Event) -> bool {
    match event {
        Event::Tick => false,
        Event::Received(record) => phase is Draining && record is Some,
        Event::Written(reply) => is_lost(reply),
    }
}

/// What to log of a record with this reply. A closed queue is told elsewhere.
pub open spec fn loss_of(len: usize, wait: u128, reply: Reply) -> Option<Loss> {
    match reply {
        Reply::Placed(_) => None,
        Reply::Refused(WriteError::QueueClosed) => None,
        Reply::Refused(_) => Some(Loss::Refused { len }),
        Reply::Elapsed => Some(Loss::NoRoom { len, wait }),
    }
}

/// The record that is being written once this one is.
pub open spec fn pending_of(record: Record) -> Pending {
    Pending { len: octets(record.data).len() as usize, wait: record.wait, ack: record.ack }
}

/// What the task is doing after the event.
pub open spec fn phase_after(phase: Phase, event: Event) -> Phase {
    match (phase, event) {
        (Phase::Idle, Event::Received(Some(record))) => Phase::Writing(pending_of(record)),
        (Phase::Idle, Event::Received(None)) => Phase::Stopped,
        (Phase::Draining, Event::Received(None)) => Phase::Stopped,
        (Phase::Writing(_), Event::Written(reply)) => if says_closed(reply) {
            Phase::Draining
        } else {
            Phase::Idle
        },
        _ => phase,
    }
}

/// Whether a report is made on the event.
pub open spec fn reports(event: Event) -> bool {
    match event {
        Event::Tick => true,
        Event::Received(record) => record is None,
        Event::Written(_) => false,
    }
}

/// Whether `finished` is what becomes of the pending record on this reply.
pub open spec fn finishes(pending: Pending, reply: Reply, finished: Finished) -> bool {
    &&& told_after_waiting(reply, finished.outcome)
    &&& finished.loss == loss_of(pending.len, pending.wait, reply)
    &&& finished.ack == pending.ack
}

/// Whether `action` is what the task does on the event, while the counters stand at `dropped`
/// and `failed`.
pub open spec fn acts(
    phase: Phase,
    reported: Reported,
    event: Event,
    dropped: u64,
    failed: u64,
    action: Action,
) -> bool {
    let report = report_of(dropped, failed, reported);
    match (phase, event) {
        (Phase::Idle, Event::Tick) => action == Action::Say(report),
        (Phase::Idle, Event::Received(Some(record))) => action == (Action::Write {
            data: record.data,
            wait: record.wait,
        }),
        (Phase::Idle, Event::Received(None)) => action == Action::Stop(report),
        (Phase::Draining, Event::Received(Some(_))) => action == Action::Discard,
        (Phase::Draining, Event::Received(None)) => action == Action::Stop(report),
        (Phase::Writing(pending), Event::Written(reply)) => if says_closed(reply) {
            action matches Action::FinishAndDrain(finished) && finishes(pending, reply, finished)
        } else {
            action matches Action::Finish(finished) && finishes(pending, reply, finished)
        },
        _ => false,
    }
}

/// What has been reported after the event.
pub open spec fn reported_after_event(
    reported: Reported,
    event: Event,
    dropped: u64,
    failed: u64,
) -> Reported {
    if reports(event) {
        reported_after(dropped, failed, reported)
    } else {
        reported
    }
}

/// What became of a record of so many bytes on this reply, and what to log of it.
pub fn write_one(len: usize, wait: u128, reply: Reply) -> (r: (Outcome, Option<Loss>))
    ensures
        told_after_waiting(reply, r.0),
        r.1 == loss_of(len, wait, reply),
{
    match reply {
        Reply::Placed(_) => (Ok(()), None),
        Reply::Refused(WriteError::QueueClosed) => (Err(WriteError::QueueClosed), None),
        Reply::Refused(e) => (Err(e), Some(Loss::Refused { len })),
        Reply::Elapsed => (Err(timed_out()), Some(Loss::NoRoom { len, wait })),
    }
}

/// Whether the event means that a record is lost after the channel accepted it.
pub fn is_loss(phase: &Phase, event: &Event) -> (r: bool)
    ensures
        r == loses(*phase, *event),
{
    match event {
        Event::Tick => false,
        Event::Received(record) => record.is_some() && matches!(phase, Phase::Draining),
        Event::Written(Reply::Placed(_)) => false,
        Event::Written(_) => true,
    }
}

/// One step of the writer task, while the counters stand at `dropped` and `failed`.
pub fn run(phase: Phase, reported: &mut Reported, event: Event, dropped: u64, failed: u64) -> (r: (
    Phase,
    Action,
))
    requires
        expects(phase, event),
    ensures
        r.0 == phase_after(phase, event),
        acts(phase, *old(reported), event, dropped, failed, r.1),
        *final(reported) == reported_after_event(*old(reported), event, dropped, failed),
{
    match event {
        Event::Tick => (phase, Action::Say(report_losses(dropped, failed, reported))),
        Event::Received(None) => (
            Phase::Stopped,
            Action::Stop(report_losses(dropped, failed, reported)),
        ),
        Event::Received(Some(record)) => match phase {
            Phase::Draining => (Phase::Draining, Action::Discard),
            _ => {
                let pending = Pending {
                    len: record.data.len(),
                    wait: record.wait,
                    ack: record.ack,
                };
                (Phase::Writing(pending), Action::Write { data: record.data, wait: record.wait })
            },
        },
        Event::Written(reply) => match phase {
            Phase::Writing(pending) => {
                let closed = matches!(reply, Reply::Refused(WriteError::QueueClosed));
                let (outcome, loss) = write_one(pending.len, pending.wait, reply);
                let finished = Finished { outcome, loss, ack: pending.ack };
                if closed {
                    (Phase::Draining, Action::FinishAndDrain(finished))
                } else {
                    (Phase::Idle, Action::Finish(finished))
                }
            },
            other => (other, Action::Say(Report::Quiet)),
        },
    }
}

/// Answers the producer of a finished record, if it waits.
pub fn answer(finished: Finished) -> (a: Option<Answered>)
    ensures
        a is Some <==> finished.ack is Some,
        a matches Some(answered) ==> answered.through() == finished.ack->0 && answered.outcome()
            == finished.outcome,
{
    match finished.ack {
        Some(ack) => Some(send_answer(ack, finished.outcome)),
        None => None,
    }
}

/// What a step of the writer task came to: what to do, where the loss was counted if the event
/// was one, and what the counters stood at after that.
pub struct Stepped {
    pub action: Action,
    pub counted: Option<Counted>,
    pub dropped: Count,
    pub failed: Count,
}

/// Whether `r` is what a step of the task comes to on the event, and `after` the task then.
pub open spec fn steps_to(
    before: WriterTask,
    event: Event,
    after: WriterTask,
    r: Stepped,
) -> bool {
    let dropped = r.dropped.value();
    let failed = r.failed.value();
    // What it is doing, what it has reported, and what to do.
    &&& after.phase() == phase_after(before.phase(), event)
    &&& after.reported() == reported_after_event(before.reported(), event, dropped, failed)
    &&& acts(before.phase(), before.reported(), event, dropped, failed, r.action)
    // A loss is counted, and only then are the counters read.
    &&& after.losses() == before.losses()
    &&& loses(before.phase(), event) <==> r.counted is Some
    &&& after.counted() == before.counted() + if r.counted is Some {
        1int
    } else {
        0int
    }
    &&& r.counted matches Some(counted) ==> counted.counter()
        == before.losses().failed_counter()
    &&& r.dropped.counter() == before.losses().dropped_counter()
    &&& r.failed.counter() == before.losses().failed_counter()
    &&& r.failed.since() == r.counted
}

/// The writer task of one queue.
pub struct WriterTask {
    failures: Failures,
    phase: Phase,
    reported: Reported,
}

impl WriterTask {
    /// What it is doing.
    pub closed spec fn phase(&self) -> Phase {
        self.phase
    }

    /// What it has reported.
    pub closed spec fn reported(&self) -> Reported {
        self.reported
    }

    /// Where it counts the losses.
    pub closed spec fn losses(&self) -> Counters {
        self.failures.losses()
    }

    /// How many losses it has counted.
    pub closed spec fn counted(&self) -> nat {
        self.failures.counted()
    }

    /// A task that waits for its first record; it counts the losses in `counters`.
    pub fn new(counters: Arc<Counters>) -> (t: WriterTask)
        ensures
            t.losses() == *counters,
            t.counted() == 0,
            t.phase() == Phase::Idle,
            t.reported() == (Reported { dropped: 0, failed: 0, losing: false }),
    {
        WriterTask {
            failures: Failures::new(counters),
            phase: Phase::Idle,
            reported: nothing_reported(),
        }
    }

    /// One step: counts the loss if the event is one, and says what to do.
    pub fn step(&mut self, event: Event) -> (r: Stepped)
        requires
            expects(old(self).phase(), event),
        ensures
            steps_to(*old(self), event, *final(self), r),
    {
        let counted = if is_loss(&self.phase, &event) {
            Some(self.failures.count())
        } else {
            None
        };
        let dropped = self.failures.dropped();
        let failed = self.failures.failed_since(&counted);
        let mut phase = Phase::Stopped;
        std::mem::swap(&mut self.phase, &mut phase);
        let (next, action) = run(
            phase,
            &mut self.reported,
            event,
            dropped.get(),
            failed.get(),
        );
        self.phase = next;
        Stepped { action, counted, dropped, failed }
    }
}

} // verus!
