//! Writing into a queue from a place that cannot wait.
//!
//! One writer task owns the only writes into its queue. Its producers reach it through a
//! bounded channel that they never block on; back-pressure arrives as a full channel.
use bytes::Bytes;
use normfs_types::QueueId;
use std::sync::Arc;
use tokio::sync::{mpsc, oneshot};
use vstd::prelude::*;
use vstd::string::StringExecFns;

use crate::backpressure::{Backpressure, ErrorView, IoKind, WriteError, WRITE_TIMEOUT};
use crate::channel::{
    answer_channel, answered_by, channel, fed_by, free_slots, offer, same_sender, slots, Effect,
    FreeSlots, History, Offer, Offered, Outcome, Record, MOST_SLOTS,
};
use crate::ids::queue_path;
use crate::losses::{Counters, Reported};
use crate::tally::Counted;
use crate::task::{Phase, WriterTask};

verus! {

/// Slots that a record which may be skipped will not touch, so a burst of frames cannot leave
/// a "drive disconnected" with nowhere to go.
pub const RESERVE: usize = 8;

/// Roughly a second of a 30 fps camera. More only adds latency.
pub const DEFAULT_CAPACITY: usize = 32;

/// What became of a record at the channel.
#[derive(Clone, Copy, Debug, PartialEq, Eq, Structural)]
pub enum Delivery {
    /// It is on its way.
    Queued,
    /// It could be skipped, and was, because the channel was full up to the reserve: dropped
    /// and counted.
    Skipped,
    /// It could not be skipped, but the channel was full: dropped and counted, and worth an
    /// error line.
    Lost,
    /// The writer task is gone, whatever the policy: dropped. Not counted, since it was no full
    /// channel that refused it.
    Gone,
}

/// Whether a record with this policy is offered to a channel with so many free slots.
pub open spec fn offers(policy: Backpressure, free: nat) -> bool {
    policy == Backpressure::Keep || free > RESERVE
}

/// What becomes of a record with this policy; `offer` is the channel's answer, `None` for a
/// record that is not offered.
pub open spec fn settled(policy: Backpressure, offer: Option<Offer>) -> Delivery {
    match (policy, offer) {
        (_, Some(Offer::Sent)) => Delivery::Queued,
        (_, Some(Offer::Closed)) => Delivery::Gone,
        (Backpressure::Skip, _) => Delivery::Skipped,
        (Backpressure::Keep, _) => Delivery::Lost,
    }
}

/// What becomes of a record with this policy at a channel that has so many free slots and
/// answers with `offer` if the record is offered.
pub open spec fn delivery(policy: Backpressure, free: nat, offer: Offer) -> Delivery {
    settled(
        policy,
        if offers(policy, free) {
            Some(offer)
        } else {
            None
        },
    )
}

/// Whether a delivery counts as a dropped record.
pub open spec fn counts_as_dropped(delivery: Delivery) -> bool {
    delivery == Delivery::Skipped || delivery == Delivery::Lost
}

/// What a producer learns of a record that it handed over.
///
/// It shows that slots were asked for, that the record was offered and that it was counted,
/// where each of these was done. Its history shows what else was done along with it.
pub struct Receipt {
    delivery: Delivery,
    free: Option<FreeSlots>,
    offered: Option<Offered>,
    counted: Option<Counted>,
    history: History,
}

impl Receipt {
    /// What became of the record.
    pub closed spec fn delivered(&self) -> Delivery {
        self.delivery
    }

    /// How many slots were free, where that was asked.
    pub closed spec fn free(&self) -> Option<FreeSlots> {
        self.free
    }

    /// What the record was offered to, if it was, and with what answer.
    pub closed spec fn offered(&self) -> Option<Offered> {
        self.offered
    }

    /// Where the record was counted, if it was.
    pub closed spec fn counted(&self) -> Option<Counted> {
        self.counted
    }

    /// What was done until the record was settled.
    pub closed spec fn history(&self) -> Seq<Effect> {
        self.history.done()
    }

    /// What was done for the record itself: it was offered, if it was, and then counted, if it
    /// was.
    pub open spec fn effects(&self) -> Seq<Effect> {
        let offers = match self.offered() {
            Some(offered) => seq![
                Effect::Offered { to: offered.channel(), record: offered.record() },
            ],
            None => Seq::empty(),
        };
        match self.counted() {
            Some(counted) => offers.push(Effect::Counted { on: counted.counter() }),
            None => offers,
        }
    }

    /// Whether it is the receipt of this record, handed over with this policy to this writer.
    ///
    /// A record to be kept was offered to the writer's channel. One that may be skipped was
    /// offered exactly if more than the reserve was free there. What became of it is what the
    /// policy makes of the channel's answer. The receipt shows a count by the writer's counters
    /// exactly if that is a drop.
    pub open spec fn is_of(
        &self,
        record: Record,
        policy: Backpressure,
        writer: QueueWriter,
    ) -> bool {
        &&& match policy {
            Backpressure::Keep => self.offered() is Some,
            Backpressure::Skip => {
                &&& self.free() matches Some(free)
                &&& free.channel() == writer.sender()
                &&& free.count() <= slots(writer.sender())
                &&& self.offered() is Some <==> offers(policy, free.count() as nat)
            },
        }
        &&& self.offered() matches Some(offered) ==> {
            &&& offered.channel() == writer.sender()
            &&& offered.record() == record
        }
        &&& self.delivered() == settled(
            policy,
            match self.offered() {
                Some(offered) => Some(offered.offer()),
                None => None,
            },
        )
        &&& counts_as_dropped(self.delivered()) <==> self.counted() is Some
        &&& self.counted() matches Some(counted) ==> counted.counter()
            == writer.losses().dropped_counter()
    }

    /// What became of the record.
    pub fn delivery(&self) -> (d: Delivery)
        ensures
            d == self.delivered(),
    {
        self.delivery
    }
}

/// The record, if its policy lets it be offered to a channel with so many free slots.
pub fn to_offer(policy: Backpressure, free: usize, record: Record) -> (r: Option<Record>)
    ensures
        r == if offers(policy, free as nat) {
            Some(record)
        } else {
            None
        },
{
    match policy {
        Backpressure::Keep => Some(record),
        Backpressure::Skip => if free > RESERVE {
            Some(record)
        } else {
            None
        },
    }
}

/// What becomes of a record with this policy; `offer` is the channel's answer, `None` for a
/// record that is not offered.
pub fn settle(policy: Backpressure, offer: Option<Offer>) -> (d: Delivery)
    ensures
        d == settled(policy, offer),
{
    match offer {
        Some(Offer::Sent) => Delivery::Queued,
        Some(Offer::Closed) => Delivery::Gone,
        _ => match policy {
            Backpressure::Skip => Delivery::Skipped,
            Backpressure::Keep => Delivery::Lost,
        },
    }
}

/// Whether a delivery counts as a dropped record.
pub fn is_dropped(d: Delivery) -> (r: bool)
    ensures
        r == counts_as_dropped(d),
{
    d == Delivery::Skipped || d == Delivery::Lost
}

/// A queue's write handle.
///
/// Every clone feeds the same writer task, so records reach the queue in the order the
/// producers handed them over. Cloning allocates nothing: hot paths clone one per record.
pub struct QueueWriter {
    tx: mpsc::Sender<Record>,
    queue_id: Arc<QueueId>,
    counters: Arc<Counters>,
}

/// How many slots the channel of a writer gets that is asked for so many: never so few that
/// the reserve is all there is.
pub open spec fn slots_for(capacity: usize) -> nat {
    if capacity < 2 * RESERVE {
        (2 * RESERVE) as nat
    } else {
        capacity as nat
    }
}

/// The error of a producer whose writer task is gone.
pub open spec fn gone_view(queue_id: QueueId) -> ErrorView {
    ErrorView::Io {
        kind: IoKind::Other,
        text: "the writer task for queue '"@ + queue_path(queue_id) + "' is gone"@,
    }
}

/// Whether `res` is what a producer is told that waited for its record: the answer, or that
/// the writer task is gone where the record could not be sent or the answer never came.
pub open spec fn told_after_awaiting(
    queue_id: QueueId,
    sent: bool,
    answer: Option<Outcome>,
    res: Outcome,
) -> bool {
    if sent && answer is Some {
        res == answer->0
    } else {
        res matches Err(e) && e@ == gone_view(queue_id)
    }
}

impl Clone for QueueWriter {
    fn clone(&self) -> (r: QueueWriter)
        ensures
            r.sender() == self.sender(),
            r.id() == self.id(),
            r.losses() == self.losses(),
    {
        QueueWriter {
            tx: same_sender(&self.tx),
            queue_id: Arc::clone(&self.queue_id),
            counters: Arc::clone(&self.counters),
        }
    }
}

impl QueueWriter {
    /// The producers' end of the channel.
    pub closed spec fn sender(&self) -> mpsc::Sender<Record> {
        self.tx
    }

    /// The queue that is written into.
    pub closed spec fn id(&self) -> QueueId {
        *self.queue_id
    }

    /// Where the losses are counted.
    pub closed spec fn losses(&self) -> Counters {
        *self.counters
    }

    /// Makes the write handle of a queue, and the end of the channel that its writer task
    /// reads from, see [`QueueWriter::task`]. The queue is to be started for writing before the
    /// task runs.
    pub fn spawn(queue_id: QueueId, capacity: usize) -> (r: (QueueWriter, mpsc::Receiver<Record>))
        requires
            capacity <= MOST_SLOTS,
        ensures
            r.0.id() == queue_id,
            slots(r.0.sender()) == slots_for(capacity),
            r.0.losses().from_nothing(),
            fed_by(r.1) == r.0.sender(),
    {
        let wanted: usize = if capacity < RESERVE * 2 {
            RESERVE * 2
        } else {
            capacity
        };
        let (tx, rx) = channel(wanted);
        let counters = Arc::new(Counters::new());
        (QueueWriter { tx, queue_id: Arc::new(queue_id), counters }, rx)
    }

    /// [`QueueWriter::spawn`] with [`DEFAULT_CAPACITY`].
    pub fn open(queue_id: QueueId) -> (r: (QueueWriter, mpsc::Receiver<Record>))
        ensures
            r.0.id() == queue_id,
            slots(r.0.sender()) == DEFAULT_CAPACITY,
            r.0.losses().from_nothing(),
            fed_by(r.1) == r.0.sender(),
    {
        Self::spawn(queue_id, DEFAULT_CAPACITY)
    }

    pub fn queue_id(&self) -> (id: &QueueId)
        ensures
            *id == self.id(),
    {
        &self.queue_id
    }

    /// Where the losses are counted, by the producers and by the writer task.
    pub fn counters(&self) -> (c: &Counters)
        ensures
            *c == self.losses(),
    {
        &self.counters
    }

    /// The writer task of this queue, before its first record.
    pub fn task(&self) -> (t: WriterTask)
        ensures
            t.phase() == Phase::Idle,
            t.reported() == (Reported { dropped: 0, failed: 0, losing: false }),
            t.losses() == self.losses(),
            t.counted() == 0,
    {
        WriterTask::new(Arc::clone(&self.counters))
    }

    /// The producers' end of the channel, to await a free slot on.
    pub fn channel(&self) -> (tx: &mpsc::Sender<Record>)
        ensures
            *tx == self.sender(),
    {
        &self.tx
    }

    /// How many slots of the channel are free at the moment.
    pub fn capacity(&self) -> (free: FreeSlots)
        ensures
            free.channel() == self.sender(),
            free.count() <= slots(self.sender()),
    {
        free_slots(&self.tx)
    }

    /// Hands a record over without ever blocking. It may wait [`WRITE_TIMEOUT`] for a page.
    /// Nothing else is done along with it.
    pub fn write(&self, data: Bytes, policy: Backpressure) -> (r: Receipt)
        ensures
            r.is_of((Record { data, wait: WRITE_TIMEOUT, ack: None }), policy, *self),
            r.history() == r.effects(),
    {
        self.send(Self::record(data, WRITE_TIMEOUT), policy, History::new())
    }

    /// Hands a record over after what `history` shows, and does nothing else.
    pub fn send(&self, record: Record, policy: Backpressure, history: History) -> (r: Receipt)
        ensures
            r.is_of(record, policy, *self),
            r.history() == history.done() + r.effects(),
    {
        match policy {
            Backpressure::Keep => self.must_send(record, history),
            Backpressure::Skip => self.skip_send(record, history),
        }
    }

    /// Stops at [`RESERVE`] rather than at the end of the channel, so a stream of these
    /// cannot crowd out a record that has to be kept.
    ///
    /// Asking for free slots and offering the record are two steps: where several producers are
    /// between the two at once, all but one of them may take a slot of the reserve.
    pub fn skip_send(&self, record: Record, history: History) -> (r: Receipt)
        ensures
            r.is_of(record, Backpressure::Skip, *self),
            r.history() == history.done() + r.effects(),
    {
        let mut history = history;
        let free = free_slots(&self.tx);
        let offered = match to_offer(Backpressure::Skip, free.get(), record) {
            Some(record) => Some(offer(&self.tx, record, &mut history)),
            None => None,
        };
        self.receipt(Backpressure::Skip, Some(free), offered, history)
    }

    /// Never blocks either: the caller may be a subscriber callback or a capture thread.
    /// Exhausting the reserve means a long stall, and is worth an error line rather than a
    /// silent drop.
    pub fn must_send(&self, record: Record, history: History) -> (r: Receipt)
        ensures
            r.is_of(record, Backpressure::Keep, *self),
            r.history() == history.done() + r.effects(),
    {
        let mut history = history;
        let offered = offer(&self.tx, record, &mut history);
        self.receipt(Backpressure::Keep, None, Some(offered), history)
    }

    /// The receipt for what the channel answered; counts the record if it is dropped.
    fn receipt(
        &self,
        policy: Backpressure,
        free: Option<FreeSlots>,
        offered: Option<Offered>,
        history: History,
    ) -> (r: Receipt)
        ensures
            r.free() == free,
            r.offered() == offered,
            r.history() == match r.counted() {
                Some(counted) => history.done().push(Effect::Counted { on: counted.counter() }),
                None => history.done(),
            },
            r.delivered() == settled(
                policy,
                match offered {
                    Some(offered) => Some(offered.offer()),
                    None => None,
                },
            ),
            counts_as_dropped(r.delivered()) <==> r.counted() is Some,
            r.counted() matches Some(counted) ==> counted.counter()
                == self.losses().dropped_counter(),
    {
        let answer = match &offered {
            Some(offered) => Some(offered.answer()),
            None => None,
        };
        let delivery = settle(policy, answer);
        let mut history = history;
        let counted = if is_dropped(delivery) {
            Some(self.counters.count_dropped(&mut history))
        } else {
            None
        };
        Receipt { delivery, free, offered, counted, history }
    }

    /// For the few records whose arrival the caller has to know about before it goes on: the
    /// record to send, and where the answer comes from. See [`QueueWriter::awaited`].
    pub fn write_awaiting(&self, data: Bytes, wait: u128) -> (r: (
        Record,
        oneshot::Receiver<Outcome>,
    ))
        ensures
            r.0 == (Record { data, wait, ack: Some(answered_by(r.1)) }),
    {
        let (ack_tx, ack_rx) = answer_channel();
        (Record { data, wait, ack: Some(ack_tx) }, ack_rx)
    }

    /// What the caller of [`QueueWriter::write_awaiting`] is told: `sent` says whether the
    /// channel took the record, `answer` what came back, `None` where nothing ever will.
    pub fn awaited(&self, sent: bool, answer: Option<Outcome>) -> (res: Outcome)
        ensures
            told_after_awaiting(self.id(), sent, answer, res),
    {
        if !sent {
            return Err(Self::gone(&self.queue_id));
        }
        match answer {
            Some(outcome) => outcome,
            None => Err(Self::gone(&self.queue_id)),
        }
    }

    /// A record that nobody waits to hear of.
    pub fn record(data: Bytes, wait: u128) -> (r: Record)
        ensures
            r == (Record { data, wait, ack: None }),
    {
        Record { data, wait, ack: None }
    }

    /// The error of a producer whose writer task is gone.
    pub fn gone(queue_id: &QueueId) -> (e: WriteError)
        ensures
            e@ == gone_view(*queue_id),
    {
        let text = "the writer task for queue '".to_owned().concat(queue_id.as_str()).concat(
            "' is gone",
        );
        WriteError::Io { kind: IoKind::Other, text }
    }
}

} // verus!
