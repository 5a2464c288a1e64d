//! The bounded channel between the producers of a queue and its writer task: what the
//! library assumes of `tokio::sync::mpsc` and `tokio::sync::oneshot`.
use bytes::Bytes;
use std::sync::atomic::AtomicU64;
use tokio::sync::{mpsc, oneshot};
use vstd::prelude::*;

use crate::backpressure::WriteError;
use crate::tally::Counted;

verus! {

/// `tokio::sync::mpsc::Sender`, a producer's end of the channel.
#[verifier::external_type_specification]
#[verifier::external_body]
#[verifier::reject_recursive_types(T)]
pub struct ExSender<T>(tokio::sync::mpsc::Sender<T>);

/// `tokio::sync::mpsc::Receiver`, the writer task's end of the channel.
#[verifier::external_type_specification]
#[verifier::external_body]
#[verifier::reject_recursive_types(T)]
pub struct ExReceiver<T>(tokio::sync::mpsc::Receiver<T>);

/// `tokio::sync::oneshot::Sender`, where one answer goes.
#[verifier::external_type_specification]
#[verifier::external_body]
#[verifier::reject_recursive_types(T)]
pub struct ExAnswerSender<T>(tokio::sync::oneshot::Sender<T>);

/// `tokio::sync::oneshot::Receiver`, where one answer comes from.
#[verifier::external_type_specification]
#[verifier::external_body]
#[verifier::reject_recursive_types(T)]
pub struct ExAnswerReceiver<T>(tokio::sync::oneshot::Receiver<T>);

/// `tokio::sync::oneshot::error::RecvError`, what a receiver is told whose sender is gone.
#[verifier::external_type_specification]
#[verifier::external_body]
pub struct ExRecvError(tokio::sync::oneshot::error::RecvError);

/// What became of one record.
pub type Outcome = Result<(), WriteError>;

/// One record on its way to the queue.
pub struct Record {
    pub data: Bytes,
    /// How long it may wait for a page, in nanoseconds.
    pub wait: u128,
    /// Where the producer waits to hear what became of it, if it does.
    pub ack: Option<oneshot::Sender<Outcome>>,
}

/// What the channel did with a record.
#[derive(Clone, Copy, Debug, PartialEq, Eq, Structural)]
pub enum Offer {
    Sent,
    Full,
    /// The writer task is gone.
    Closed,
}

/// Something that was done while records were handed over.
pub enum Effect {
    /// A record was offered to a channel.
    Offered { to: mpsc::Sender<Record>, record: Record },
    /// One was added to a counter.
    Counted { on: AtomicU64 },
}

/// What was done while records were handed over, in that order. It goes along with the records:
/// no record is handed over or counted as dropped without one, and what was done once stays in
/// it. It shows what went along with it, and not what went along with another.
pub struct History {
    done: Ghost<Seq<Effect>>,
}

impl History {
    /// What was done.
    pub closed spec fn done(&self) -> Seq<Effect> {
        self.done@
    }

    /// Nothing done yet.
    pub fn new() -> (h: History)
        ensures
            h.done() == Seq::<Effect>::empty(),
    {
        History { done: Ghost(Seq::empty()) }
    }

    /// Notes what was counted.
    pub(crate) fn note(&mut self, counted: &Counted)
        ensures
            final(self).done() == old(self).done().push(
                Effect::Counted { on: counted.counter() },
            ),
    {
        self.done = Ghost(self.done@.push(Effect::Counted { on: counted.counter() }));
    }
}

/// Shows that a record was offered to a channel, and what the channel did with it. Only
/// [`offer`] hands it out. It does not show that nothing else was offered: see [`History`].
pub struct Offered {
    to: Ghost<mpsc::Sender<Record>>,
    held: Ghost<Record>,
    offer: Offer,
}

impl Offered {
    /// The channel.
    pub closed spec fn channel(&self) -> mpsc::Sender<Record> {
        self.to@
    }

    /// The record.
    pub closed spec fn record(&self) -> Record {
        self.held@
    }

    /// What the channel did with it.
    pub closed spec fn offer(&self) -> Offer {
        self.offer
    }

    /// What the channel did with it.
    pub fn answer(&self) -> (o: Offer)
        ensures
            o == self.offer(),
    {
        self.offer
    }
}

/// How many slots of a channel were free when it was asked. Only [`free_slots`] hands it out.
pub struct FreeSlots {
    of: Ghost<mpsc::Sender<Record>>,
    free: usize,
}

impl FreeSlots {
    /// The channel.
    pub closed spec fn channel(&self) -> mpsc::Sender<Record> {
        self.of@
    }

    /// How many slots were free.
    pub closed spec fn count(&self) -> usize {
        self.free
    }

    /// How many slots were free.
    pub fn get(&self) -> (n: usize)
        ensures
            n == self.count(),
    {
        self.free
    }
}

/// Shows that an answer was handed over. Only [`send_answer`] hands it
/// out.
pub struct Answered {
    through: Ghost<oneshot::Sender<Outcome>>,
    with: Ghost<Outcome>,
}

impl Answered {
    /// The end that it was sent from.
    pub closed spec fn through(&self) -> oneshot::Sender<Outcome> {
        self.through@
    }

    /// The answer.
    pub closed spec fn outcome(&self) -> Outcome {
        self.with@
    }
}

/// How many records the channel holds at most: the number it was made with, which
/// `Sender::max_capacity` gives.
pub uninterp spec fn slots(tx: mpsc::Sender<Record>) -> nat;

/// The producers' end that the writer task's end was made with.
pub uninterp spec fn fed_by(rx: mpsc::Receiver<Record>) -> mpsc::Sender<Record>;

/// The end that an answer is sent from, of the one that it is awaited at.
pub uninterp spec fn answered_by(rx: oneshot::Receiver<Outcome>) -> oneshot::Sender<Outcome>;

/// The most slots that a channel of tokio can be made with.
pub const MOST_SLOTS: usize = usize::MAX / 8;

/// `tokio::sync::mpsc::channel` makes the two ends of a channel of that many slots. It panics
/// on none at all and on more than its semaphore can count.
#[verifier::external_body]
pub(crate) fn channel(capacity: usize) -> (ends: (mpsc::Sender<Record>, mpsc::Receiver<Record>))
    requires
        0 < capacity <= MOST_SLOTS,
    ensures
        slots(ends.0) == capacity,
        fed_by(ends.1) == ends.0,
{
    mpsc::channel(capacity)
}

/// `Sender::capacity` tells how many slots are free at the moment, of all there are. Which
/// number it is depends on what the other ends of the channel have done by then.
#[verifier::external_body]
pub(crate) fn free_slots(tx: &mpsc::Sender<Record>) -> (f: FreeSlots)
    ensures
        f.channel() == *tx,
        f.count() <= slots(*tx),
{
    FreeSlots { of: Ghost(*tx), free: tx.capacity() }
}

/// `Sender::try_send` puts the record into a free slot, or drops it and says why: no slot is
/// free, or the receiving end is gone. Which of the three it is depends on what the other
/// ends of the channel have done by then.
#[verifier::external_body]
fn try_send(tx: &mpsc::Sender<Record>, record: Record) -> (o: Offered)
    ensures
        o.channel() == *tx,
        o.record() == record,
{
    let offer = match tx.try_send(record) {
        Ok(()) => Offer::Sent,
        Err(mpsc::error::TrySendError::Full(_)) => Offer::Full,
        Err(mpsc::error::TrySendError::Closed(_)) => Offer::Closed,
    };
    Offered { to: Ghost(*tx), held: Ghost(record), offer }
}

/// Offers the record to the channel, and notes that.
pub(crate) fn offer(tx: &mpsc::Sender<Record>, record: Record, history: &mut History) -> (o:
    Offered)
    ensures
        o.channel() == *tx,
        o.record() == record,
        final(history).done() == old(history).done().push(Effect::Offered { to: *tx, record }),
{
    let ghost noted = Effect::Offered { to: *tx, record };
    let offered = try_send(tx, record);
    history.done = Ghost(history.done@.push(noted));
    offered
}

/// `Sender::clone` gives another handle on the same channel.
#[verifier::external_body]
pub(crate) fn same_sender(tx: &mpsc::Sender<Record>) -> (r: mpsc::Sender<Record>)
    ensures
        r == *tx,
{
    tx.clone()
}

/// `tokio::sync::oneshot::channel` makes the two ends of one answer.
#[verifier::external_body]
pub(crate) fn answer_channel() -> (ends: (oneshot::Sender<Outcome>, oneshot::Receiver<Outcome>))
    ensures
        answered_by(ends.1) == ends.0,
{
    oneshot::channel()
}

/// `oneshot::Sender::send` hands the answer over; one that nobody waits for any more is
/// dropped.
#[verifier::external_body]
pub(crate) fn send_answer(ack: oneshot::Sender<Outcome>, outcome: Outcome) -> (a: Answered)
    ensures
        a.through() == ack,
        a.outcome() == outcome,
{
    let answered = Answered { through: Ghost(ack), with: Ghost(outcome) };
    let _ = ack.send(outcome);
    answered
}

} // verus!
