//! What holds of a queue's channel, of its reports and of its writer task, whatever happens.
use bytes::Bytes;
use normfs_types::QueueId;
use std::sync::atomic::AtomicU64;
use tokio::sync::mpsc;
use vstd::prelude::*;

use crate::backpressure::{
    is_timeout, Backpressure, Reply, WriteError, STARTUP_WRITE_TIMEOUT, WRITE_TIMEOUT,
};
use crate::channel::{slots, Effect, Offer, Outcome, Record};
use crate::ids::queue_path;
use crate::losses::{
    law_a_report_says_what_is_new, report_of, reported_after, says, Report, Reported,
    REPORT_INTERVAL,
};
use crate::main_queue::MAIN_QUEUE_CAPACITY;
use crate::octets::octets;
use crate::task::{
    acts, expects, finishes, loses, pending_of, phase_after, reported_after_event, steps_to,
    Action, Event, Finished, Loss, Pending, Phase, Stepped, WriterTask,
};
use crate::writer::{
    counts_as_dropped, delivery, offers, settled, slots_for, told_after_awaiting, Delivery,
    QueueWriter, Receipt, DEFAULT_CAPACITY, RESERVE,
};

verus! {

// The channel.

/// What happens at a channel whose writer task lives. Several producers share it, so other
/// things may happen between one's asking for free slots and its offering of the record.
pub enum ChannelEvent {
    /// A producer of a record that may be skipped asks for free slots.
    Asked,
    /// One that was told of more than the reserve offers its record.
    Offered,
    /// A producer offers a record to be kept.
    Kept,
    /// The writer task takes a record out.
    Taken,
}

/// What a channel answers while its writer task lives: a record is sent if a slot is free.
pub open spec fn living_answer(free: nat) -> Offer {
    if free > 0 {
        Offer::Sent
    } else {
        Offer::Full
    }
}

/// What becomes of a record that is handed over while so many slots are free, and stay so
/// until it is offered.
pub open spec fn fate(policy: Backpressure, free: nat) -> Delivery {
    delivery(policy, free, living_answer(free))
}

/// A channel and what went on at it.
pub struct ChannelState {
    /// Slots that are free.
    pub free: nat,
    /// Producers of records that may be skipped which have asked and are about to offer.
    pub about_to_offer: nat,
    /// Records that may be skipped that were handed over.
    pub skippable: nat,
    /// Records to be kept that were handed over.
    pub kept: nat,
    /// Records that went into the channel.
    pub queued: nat,
    /// Records that were counted as dropped.
    pub dropped: nat,
    /// Records to be kept among them.
    pub lost: nat,
}

/// A channel with so many free slots, before anything is handed over.
pub open spec fn channel_with(free: nat) -> ChannelState {
    ChannelState {
        free,
        about_to_offer: 0,
        skippable: 0,
        kept: 0,
        queued: 0,
        dropped: 0,
        lost: 0,
    }
}

/// The channel once this became of a record that was offered or held back.
pub open spec fn noted(s: ChannelState, d: Delivery) -> ChannelState {
    if d == Delivery::Queued {
        ChannelState { free: (s.free - 1) as nat, queued: s.queued + 1, ..s }
    } else if counts_as_dropped(d) {
        ChannelState {
            dropped: s.dropped + 1,
            lost: if d == Delivery::Lost {
                s.lost + 1
            } else {
                s.lost
            },
            ..s
        }
    } else {
        s
    }
}

/// The channel after the event, of `slots` in all.
pub open spec fn channel_after(s: ChannelState, slots: nat, event: ChannelEvent) -> ChannelState {
    match event {
        ChannelEvent::Asked => {
            let asked = ChannelState { skippable: s.skippable + 1, ..s };
            if offers(Backpressure::Skip, s.free) {
                ChannelState { about_to_offer: s.about_to_offer + 1, ..asked }
            } else {
                noted(asked, settled(Backpressure::Skip, None))
            }
        },
        ChannelEvent::Offered => if s.about_to_offer > 0 {
            noted(
                ChannelState { about_to_offer: (s.about_to_offer - 1) as nat, ..s },
                settled(Backpressure::Skip, Some(living_answer(s.free))),
            )
        } else {
            s
        },
        ChannelEvent::Kept => noted(
            ChannelState { kept: s.kept + 1, ..s },
            settled(Backpressure::Keep, Some(living_answer(s.free))),
        ),
        ChannelEvent::Taken => if s.free < slots {
            ChannelState { free: s.free + 1, ..s }
        } else {
            s
        },
    }
}

/// The channel after all of the events, from one with so many free slots.
pub open spec fn channel_after_all(
    free: nat,
    slots: nat,
    events: Seq<ChannelEvent>,
) -> ChannelState
    decreases events.len(),
{
    if events.len() == 0 {
        channel_with(free)
    } else {
        channel_after(channel_after_all(free, slots, events.drop_last()), slots, events.last())
    }
}

/// Whether no more than so many producers of records that may be skipped were ever between
/// asking and offering at once.
pub open spec fn at_once(
    producers: nat,
    free: nat,
    slots: nat,
    events: Seq<ChannelEvent>,
) -> bool
    decreases events.len(),
{
    &&& channel_after_all(free, slots, events).about_to_offer <= producers
    &&& events.len() > 0 ==> at_once(producers, free, slots, events.drop_last())
}

/// A record that may be skipped is queued exactly while more than the reserve is free; one to
/// be kept is queued exactly while any slot is free.
pub proof fn law_who_is_queued(free: nat)
    ensures
        fate(Backpressure::Skip, free) == Delivery::Queued <==> free > RESERVE,
        fate(Backpressure::Keep, free) == Delivery::Queued <==> free > 0,
{
}

/// A record that is offered to a channel without a writer task is not counted as dropped,
/// whatever its policy: it was no full channel that refused it.
pub proof fn law_a_closed_channel_counts_nothing(policy: Backpressure)
    ensures
        settled(policy, Some(Offer::Closed)) == Delivery::Gone,
        !counts_as_dropped(settled(policy, Some(Offer::Closed))),
{
}

/// A new channel has room for both kinds of records: whatever capacity was asked for, as many
/// slots as the reserve has are beyond the reserve.
pub proof fn law_a_new_channel_has_room_for_both(capacity: usize)
    ensures
        slots_for(capacity) >= capacity,
        slots_for(capacity) >= RESERVE + RESERVE,
{
}

/// While the writer task lives, every record that was handed over is queued or counted as
/// dropped, but for those that are about to be offered.
pub proof fn law_every_record_is_queued_or_counted(
    free: nat,
    slots: nat,
    events: Seq<ChannelEvent>,
)
    ensures
        ({
            let s = channel_after_all(free, slots, events);
            s.queued + s.dropped + s.about_to_offer == s.skippable + s.kept
        }),
    decreases events.len(),
{
    if events.len() > 0 {
        law_every_record_is_queued_or_counted(free, slots, events.drop_last());
    }
}

/// What a channel with so many free slots holds back for records to be kept: the reserve, or
/// what is left of it.
pub open spec fn held_back(free: nat) -> nat {
    if free < RESERVE {
        free
    } else {
        RESERVE as nat
    }
}

/// The free slots never fall below what was held back at first by more than the records to be
/// kept that were handed over and the producers, but for one, that offer at once. No record to
/// be kept is lost before that.
proof fn lemma_free_slots(producers: nat, free: nat, slots: nat, events: Seq<ChannelEvent>)
    requires
        producers > 0,
        free <= slots,
        at_once(producers, free, slots, events),
    ensures
        ({
            let s = channel_after_all(free, slots, events);
            &&& s.free + s.kept + producers >= held_back(free) + 1 + s.about_to_offer
            &&& s.free <= slots
            &&& s.kept + (producers - 1) <= held_back(free) ==> s.lost == 0
        }),
    decreases events.len(),
{
    if events.len() > 0 {
        lemma_free_slots(producers, free, slots, events.drop_last());
    }
}

/// A stream of records that may be skipped never touches the reserve, or what is left of it,
/// where no two of their producers are between asking and offering at once. Each further one
/// that is may cost one slot of it.
pub proof fn law_skipping_leaves_the_reserve(
    producers: nat,
    free: nat,
    slots: nat,
    events: Seq<ChannelEvent>,
)
    requires
        producers > 0,
        free <= slots,
        at_once(producers, free, slots, events),
        channel_after_all(free, slots, events).kept == 0,
    ensures
        channel_after_all(free, slots, events).free + (producers - 1) >= held_back(free),
        channel_after_all(free, slots, events).free <= slots,
{
    lemma_free_slots(producers, free, slots, events);
}

/// Whatever was handed over before, in whatever order and however little was taken out: as many
/// records to be kept as the reserve had free slots at first are all queued, where no two
/// producers of records that may be skipped are between asking and offering at once. Each
/// further one that is may cost one of these records its slot.
pub proof fn law_the_reserve_is_for_kept_records(
    producers: nat,
    free: nat,
    slots: nat,
    events: Seq<ChannelEvent>,
)
    requires
        producers > 0,
        free <= slots,
        at_once(producers, free, slots, events),
        channel_after_all(free, slots, events).kept + (producers - 1) <= held_back(free),
    ensures
        channel_after_all(free, slots, events).lost == 0,
        channel_after_all(free, slots, events).kept + (producers - 1) < held_back(free) ==> fate(
            Backpressure::Keep,
            channel_after_all(free, slots, events).free,
        ) == Delivery::Queued,
{
    lemma_free_slots(producers, free, slots, events);
}

/// What is owed at a channel of so many slots while few records were handed over. As long as
/// they are no more than the slots, no record to be kept was lost, and none at all was dropped
/// if none could be skipped. As long as they are fewer, the next record to be kept is queued.
pub open spec fn loses_none_while_few(slots: nat, s: ChannelState) -> bool {
    &&& s.skippable + s.kept <= slots ==> s.lost == 0
    &&& s.skippable == 0 && s.kept <= slots ==> s.dropped == 0
    &&& s.skippable + s.kept < slots ==> fate(Backpressure::Keep, s.free) == Delivery::Queued
}

/// A channel that starts empty is not full before as many records were handed over as it has
/// slots, however little is taken out.
pub proof fn law_fewer_records_than_slots_never_fill(slots: nat, events: Seq<ChannelEvent>)
    ensures
        loses_none_while_few(slots, channel_after_all(slots, slots, events)),
    decreases events.len(),
{
    law_every_record_is_queued_or_counted(slots, slots, events);
    lemma_queued_took_the_slots(slots, events);
    lemma_dropped_are_lost_or_skippable(slots, slots, events);
    if events.len() > 0 {
        law_fewer_records_than_slots_never_fill(slots, events.drop_last());
    }
}

/// A slot is taken only by a record that was queued.
proof fn lemma_queued_took_the_slots(slots: nat, events: Seq<ChannelEvent>)
    ensures
        ({
            let s = channel_after_all(slots, slots, events);
            s.free + s.queued >= slots
        }),
    decreases events.len(),
{
    if events.len() > 0 {
        lemma_queued_took_the_slots(slots, events.drop_last());
    }
}

/// A record that was dropped was to be kept and got lost, or could be skipped.
proof fn lemma_dropped_are_lost_or_skippable(free: nat, slots: nat, events: Seq<ChannelEvent>)
    ensures
        ({
            let s = channel_after_all(free, slots, events);
            s.dropped + s.about_to_offer <= s.lost + s.skippable
        }),
    decreases events.len(),
{
    if events.len() > 0 {
        lemma_dropped_are_lost_or_skippable(free, slots, events.drop_last());
    }
}

/// The main queue is sized for its registrations: as long as no more records were handed over
/// than it has slots, every one of them was queued even if none was taken out.
pub proof fn law_the_main_queue_takes_its_registrations(events: Seq<ChannelEvent>)
    ensures
        loses_none_while_few(
            MAIN_QUEUE_CAPACITY as nat,
            channel_after_all(MAIN_QUEUE_CAPACITY as nat, MAIN_QUEUE_CAPACITY as nat, events),
        ),
{
    law_fewer_records_than_slots_never_fill(MAIN_QUEUE_CAPACITY as nat, events);
}

/// How long a record may wait, how often losses are told, and how many records the channels
/// hold: times in nanoseconds, the startup records with the most patience.
pub proof fn law_times_and_sizes(capacity: usize)
    ensures
        WRITE_TIMEOUT == 5 * 1_000_000_000,
        STARTUP_WRITE_TIMEOUT == 30 * 1_000_000_000,
        REPORT_INTERVAL == 5 * 1_000_000_000,
        RESERVE == 8,
        DEFAULT_CAPACITY == 32,
        MAIN_QUEUE_CAPACITY == 256,
        capacity >= 16 ==> slots_for(capacity) == capacity,
        capacity < 16 ==> slots_for(capacity) == 16,
{
}

/// What a receipt shows of a record that was handed over.
///
/// What was offered, if anything, is that record itself, to that writer's own channel. One to be
/// kept was offered; one that may be skipped was offered exactly if more than eight slots of
/// that channel were free. It is on its way exactly if the channel took it. It was counted, by
/// that writer's own counter, exactly if it was held back or found the channel full; and it is
/// worth an error line exactly if it was to be kept and found the channel full.
pub proof fn law_a_receipt_shows_what_became_of_the_record(
    r: Receipt,
    record: Record,
    policy: Backpressure,
    writer: QueueWriter,
)
    requires
        r.is_of(record, policy, writer),
    ensures
        r.offered() matches Some(o) ==> o.record().data == record.data && o.record().wait
            == record.wait && o.record().ack == record.ack && o.channel() == writer.sender(),
        policy is Keep ==> r.offered() is Some,
        policy is Skip ==> r.free() is Some && r.free()->0.channel() == writer.sender() && (
        r.offered() is Some <==> r.free()->0.count() > 8) && r.free()->0.count() <= slots(
            writer.sender(),
        ),
        r.delivered() is Queued <==> (r.offered() is Some && r.offered()->0.offer() is Sent),
        r.delivered() is Gone <==> (r.offered() is Some && r.offered()->0.offer() is Closed),
        r.delivered() is Lost <==> (policy is Keep && r.offered()->0.offer() is Full),
        r.counted() is Some <==> (r.offered() is None || r.offered()->0.offer() is Full),
        r.counted() matches Some(c) ==> c.counter() == writer.losses().dropped_counter(),
{
}

/// The records that were offered to a channel, in their order.
pub open spec fn offers_at(tx: mpsc::Sender<Record>, done: Seq<Effect>) -> Seq<Record>
    decreases done.len(),
{
    if done.len() == 0 {
        Seq::empty()
    } else {
        match done.last() {
            Effect::Offered { to, record } if to == tx => offers_at(tx, done.drop_last()).push(
                record,
            ),
            _ => offers_at(tx, done.drop_last()),
        }
    }
}

/// How often one was added to a counter.
pub open spec fn counts_on(counter: AtomicU64, done: Seq<Effect>) -> nat
    decreases done.len(),
{
    if done.len() == 0 {
        0
    } else {
        counts_on(counter, done.drop_last()) + match done.last() {
            Effect::Counted { on } if on == counter => 1nat,
            _ => 0,
        }
    }
}

/// A record that is handed over after other things were done is offered once or not at all: what
/// was offered to the writer's channel is what was before, and this record if it was offered; to
/// any other channel nothing is. The writer's counter has gone up by one if the record was held
/// back or found the channel full, and else not at all; no other counter has.
pub proof fn law_a_record_is_handed_over_once(
    r: Receipt,
    record: Record,
    policy: Backpressure,
    writer: QueueWriter,
    earlier: Seq<Effect>,
    tx: mpsc::Sender<Record>,
    counter: AtomicU64,
)
    requires
        r.is_of(record, policy, writer),
        r.history() == earlier + r.effects(),
    ensures
        offers_at(tx, r.history()) == if tx == writer.sender() && r.offered() is Some {
            offers_at(tx, earlier).push(record)
        } else {
            offers_at(tx, earlier)
        },
        counts_on(counter, r.history()) == counts_on(counter, earlier) + if counter
            == writer.losses().dropped_counter() && (r.offered() is None || r.offered()->0.offer()
            is Full) {
            1int
        } else {
            0int
        },
        r.history().len() <= earlier.len() + 2,
{
    reveal_with_fuel(offers_at, 3);
    reveal_with_fuel(counts_on, 3);
    let done = r.history();
    if r.counted() is Some {
        if r.offered() is Some {
            assert(done.drop_last().drop_last() =~= earlier);
        } else {
            assert(done.drop_last() =~= earlier);
        }
    } else {
        assert(r.offered() is Some);
        assert(done.drop_last() =~= earlier);
    }
}

/// What a producer hears that waited for its record. It is told `Ok` only if the record was sent
/// and the answer to it is `Ok`. An error that came back is told unchanged. Where the record was
/// not sent, or no answer came, it is told that the writer task of that queue is gone.
pub proof fn law_a_waiting_producer_hears_the_answer(
    queue_id: QueueId,
    sent: bool,
    answer: Option<Outcome>,
    res: Outcome,
)
    requires
        told_after_awaiting(queue_id, sent, answer, res),
    ensures
        res is Ok <==> (sent && answer is Some && answer->0 is Ok),
        sent && answer is Some && answer->0 is Err ==> res is Err && res->Err_0 == answer->0->Err_0,
        !sent || answer is None ==> {
            &&& res matches Err(WriteError::Io { kind, text })
            &&& kind is Other
            &&& text@ == "the writer task for queue '"@ + queue_path(queue_id) + "' is gone"@
        },
{
}

/// A record that somebody waits for is told to have arrived only if the queue placed it, and is
/// told so if it did: what the producer hears of the k-th record of a run is what the queue
/// replied to that record.
pub proof fn law_who_waits_hears_whether_it_was_placed(
    steps: Seq<Step>,
    k: int,
    queue_id: QueueId,
    res: Outcome,
)
    requires
        is_run(steps),
        0 <= k < finished(steps).len(),
        told_after_awaiting(queue_id, true, Some(finished(steps)[k].outcome), res),
    ensures
        res is Ok <==> replies(steps)[k] is Placed,
        replies(steps)[k] matches Reply::Refused(e) ==> res == Err::<(), WriteError>(e),
        replies(steps)[k] is Elapsed ==> is_timeout(res),
{
    law_every_producer_is_answered(steps);
    assert(finished(steps)[k].outcome == finished(steps)[k].outcome);
}

// The reports.

/// Two counters as they stood at one moment.
pub struct Counts {
    pub dropped: u64,
    pub failed: u64,
}

/// What has been reported after a report at each of these moments, from nothing.
pub open spec fn reported_after_all(counts: Seq<Counts>) -> Reported
    decreases counts.len(),
{
    if counts.len() == 0 {
        Reported { dropped: 0, failed: 0, losing: false }
    } else {
        reported_after(
            counts.last().dropped,
            counts.last().failed,
            reported_after_all(counts.drop_last()),
        )
    }
}

/// What is said at the last of these moments.
pub open spec fn last_report(counts: Seq<Counts>) -> Report {
    report_of(
        counts.last().dropped,
        counts.last().failed,
        reported_after_all(counts.drop_last()),
    )
}

/// How many skipped records the reports told of, all together.
pub open spec fn told_skipped(counts: Seq<Counts>) -> int
    decreases counts.len(),
{
    if counts.len() == 0 {
        0
    } else {
        told_skipped(counts.drop_last()) + match last_report(counts) {
            Report::Losing { skipped, .. } => skipped as int,
            _ => 0,
        }
    }
}

/// How many refused records the reports told of, all together.
pub open spec fn told_refused(counts: Seq<Counts>) -> int
    decreases counts.len(),
{
    if counts.len() == 0 {
        0
    } else {
        told_refused(counts.drop_last()) + match last_report(counts) {
            Report::Losing { refused, .. } => refused as int,
            _ => 0,
        }
    }
}

/// Counters only grow.
pub open spec fn growing(counts: Seq<Counts>) -> bool {
    forall|i: int, j: int|
        0 <= i <= j < counts.len() ==> (#[trigger] counts[i]).dropped <= (
        #[trigger] counts[j]).dropped && counts[i].failed <= counts[j].failed
}

/// Every loss is told of exactly once: as long as the counters have only grown, the losses
/// that the reports told of add up to what the counters stand at.
pub proof fn law_every_loss_is_told_once(counts: Seq<Counts>)
    requires
        counts.len() > 0,
        growing(counts),
    ensures
        told_skipped(counts) == counts.last().dropped,
        told_refused(counts) == counts.last().failed,
    decreases counts.len(),
{
    let front = counts.drop_last();
    if front.len() > 0 {
        assert(growing(front)) by {
            assert forall|i: int, j: int| 0 <= i <= j < front.len() implies (
            #[trigger] front[i]).dropped <= (#[trigger] front[j]).dropped && front[i].failed
                <= front[j].failed by {
                assert(counts[i].dropped <= counts[j].dropped);
            }
        }
        law_every_loss_is_told_once(front);
        assert(counts[front.len() - 1].dropped <= counts[front.len() as int].dropped);
        assert(reported_after_all(front).dropped == front.last().dropped);
        assert(reported_after_all(front).failed == front.last().failed);
    } else {
        assert(told_skipped(front) == 0);
        assert(told_refused(front) == 0);
    }
}

/// A report tells of losses exactly if a counter has grown since the one before.
pub proof fn law_losses_are_told_when_there_are_new_ones(
    dropped: u64,
    failed: u64,
    reported: Reported,
)
    ensures
        report_of(dropped, failed, reported) is Losing <==> dropped > reported.dropped || failed
            > reported.failed,
{
}

/// A recovered writer says so once and a quiet one stays quiet: while nothing is lost, the
/// report after one of losses tells of the recovery, and every later one is quiet.
pub proof fn law_recovery_is_told_once(dropped: u64, failed: u64, reported: Reported)
    requires
        report_of(dropped, failed, reported) is Losing,
    ensures
        ({
            let once = reported_after(dropped, failed, reported);
            let twice = reported_after(dropped, failed, once);
            &&& report_of(dropped, failed, once) == (Report::KeepingUp { dropped, failed })
            &&& report_of(dropped, failed, twice) == Report::Quiet
            &&& reported_after(dropped, failed, twice) == twice
        }),
{
}

// The writer task.

/// One step of a writer task: what happened, whether a loss was counted, how the counters stood
/// then, and what the task did.
pub struct Step {
    pub event: Event,
    pub counted: bool,
    pub dropped: u64,
    pub failed: u64,
    pub action: Action,
}

/// The step that came to `r` on the event.
pub open spec fn step_of(event: Event, r: Stepped) -> Step {
    Step {
        event,
        counted: r.counted is Some,
        dropped: r.dropped.value(),
        failed: r.failed.value(),
        action: r.action,
    }
}

/// What the task is doing after these steps, from the start.
pub open spec fn phase_after_all(steps: Seq<Step>) -> Phase
    decreases steps.len(),
{
    if steps.len() == 0 {
        Phase::Idle
    } else {
        phase_after(phase_after_all(steps.drop_last()), steps.last().event)
    }
}

/// What the task has reported after these steps, from the start.
pub open spec fn reported_after_steps(steps: Seq<Step>) -> Reported
    decreases steps.len(),
{
    if steps.len() == 0 {
        Reported { dropped: 0, failed: 0, losing: false }
    } else {
        reported_after_event(
            reported_after_steps(steps.drop_last()),
            steps.last().event,
            steps.last().dropped,
            steps.last().failed,
        )
    }
}

/// Whether these are steps of a writer task from its start.
pub open spec fn is_run(steps: Seq<Step>) -> bool
    decreases steps.len(),
{
    steps.len() > 0 ==> {
        let before = steps.drop_last();
        let step = steps.last();
        &&& is_run(before)
        &&& expects(phase_after_all(before), step.event)
        &&& step.counted == loses(phase_after_all(before), step.event)
        &&& acts(
            phase_after_all(before),
            reported_after_steps(before),
            step.event,
            step.dropped,
            step.failed,
            step.action,
        )
    }
}

/// Whether the task has gone through these steps.
pub open spec fn went_through(task: WriterTask, steps: Seq<Step>) -> bool {
    &&& is_run(steps)
    &&& task.phase() == phase_after_all(steps)
    &&& task.reported() == reported_after_steps(steps)
    &&& task.counted() == counted(steps)
}

/// A new task has gone through no step, and each call of `WriterTask::step` adds one: what is
/// said of runs below is said of every task.
pub proof fn law_a_task_goes_through_its_steps(
    before: WriterTask,
    steps: Seq<Step>,
    event: Event,
    after: WriterTask,
    r: Stepped,
)
    ensures
        before.phase() == Phase::Idle && before.reported() == (Reported {
            dropped: 0,
            failed: 0,
            losing: false,
        }) && before.counted() == 0 ==> went_through(before, Seq::empty()),
        went_through(before, steps) && expects(before.phase(), event) && steps_to(
            before,
            event,
            after,
            r,
        ) ==> went_through(after, steps.push(step_of(event, r))),
{
    assert(steps.push(step_of(event, r)).drop_last() =~= steps);
}

/// The records that the channel gave, in their order.
pub open spec fn received(steps: Seq<Step>) -> Seq<Record>
    decreases steps.len(),
{
    if steps.len() == 0 {
        Seq::empty()
    } else {
        match steps.last().event {
            Event::Received(Some(record)) => received(steps.drop_last()).push(record),
            _ => received(steps.drop_last()),
        }
    }
}

/// What was offered to the queue, and for how long, in that order.
pub open spec fn offered(steps: Seq<Step>) -> Seq<(Bytes, u128)>
    decreases steps.len(),
{
    if steps.len() == 0 {
        Seq::empty()
    } else {
        match steps.last().action {
            Action::Write { data, wait } => offered(steps.drop_last()).push((data, wait)),
            _ => offered(steps.drop_last()),
        }
    }
}

/// How many records were discarded because the queue was closed before their turn.
pub open spec fn discarded(steps: Seq<Step>) -> nat
    decreases steps.len(),
{
    if steps.len() == 0 {
        0
    } else {
        discarded(steps.drop_last()) + if steps.last().action is Discard {
            1nat
        } else {
            0
        }
    }
}

/// The replies of the queue, in their order.
pub open spec fn replies(steps: Seq<Step>) -> Seq<Reply>
    decreases steps.len(),
{
    if steps.len() == 0 {
        Seq::empty()
    } else {
        match steps.last().event {
            Event::Written(reply) => replies(steps.drop_last()).push(reply),
            _ => replies(steps.drop_last()),
        }
    }
}

/// How many records the queue placed.
pub open spec fn placed(steps: Seq<Step>) -> nat
    decreases steps.len(),
{
    if steps.len() == 0 {
        0
    } else {
        placed(steps.drop_last()) + match steps.last().event {
            Event::Written(Reply::Placed(_)) => 1nat,
            _ => 0,
        }
    }
}

/// How many losses the task counted.
pub open spec fn counted(steps: Seq<Step>) -> nat
    decreases steps.len(),
{
    if steps.len() == 0 {
        0
    } else {
        counted(steps.drop_last()) + if steps.last().counted {
            1nat
        } else {
            0
        }
    }
}

/// The records that the task was done with, in that order.
pub open spec fn finished(steps: Seq<Step>) -> Seq<Finished>
    decreases steps.len(),
{
    if steps.len() == 0 {
        Seq::empty()
    } else {
        match steps.last().action {
            Action::Finish(f) => finished(steps.drop_last()).push(f),
            Action::FinishAndDrain(f) => finished(steps.drop_last()).push(f),
            _ => finished(steps.drop_last()),
        }
    }
}

/// Whether the queue said that it is closed.
pub open spec fn was_closed(steps: Seq<Step>) -> bool
    decreases steps.len(),
{
    steps.len() > 0 && (was_closed(steps.drop_last()) || (
    steps.last().event matches Event::Written(reply) && reply == Reply::Refused(
        WriteError::QueueClosed,
    )))
}

/// Whether the task is between a record and the queue's reply to it.
pub open spec fn writing(steps: Seq<Step>) -> bool {
    phase_after_all(steps) is Writing
}

/// Records reach the queue in the order they were handed over: what is offered to it is, one
/// for one and in order, what the channel gave, up to the record on which the queue said that
/// it is closed. Each one after that is discarded.
pub proof fn law_records_are_written_in_order(steps: Seq<Step>)
    requires
        is_run(steps),
    ensures
        offered(steps) == received(steps).take(offered(steps).len() as int).map_values(
            |r: Record| (r.data, r.wait),
        ),
        received(steps).len() == offered(steps).len() + discarded(steps),
        !was_closed(steps) ==> discarded(steps) == 0,
    decreases steps.len(),
{
    let pair = |r: Record| (r.data, r.wait);
    if steps.len() > 0 {
        let front = steps.drop_last();
        law_records_are_written_in_order(front);
        law_when_the_task_stops(front);
        law_no_record_is_discarded_before(front);
        let n = offered(front).len() as int;
        match steps.last().event {
            Event::Received(Some(record)) => {
                let before = received(front);
                assert(before.push(record).take(n) =~= before.take(n));
                if phase_after_all(front) is Idle {
                    assert(before.push(record).take(n + 1) =~= before.take(n).push(record));
                    assert(before.take(n).push(record).map_values(pair) =~= before.take(
                        n,
                    ).map_values(pair).push(pair(record)));
                }
            },
            _ => {},
        }
    } else {
        assert(received(steps).take(0).map_values(pair) =~= Seq::empty());
    }
}

/// Nothing is discarded before the queue said that it is closed, and nothing is offered after.
pub proof fn law_no_record_is_discarded_before(steps: Seq<Step>)
    requires
        is_run(steps),
    ensures
        !was_closed(steps) ==> discarded(steps) == 0,
        was_closed(steps) ==> phase_after_all(steps) is Draining || phase_after_all(
            steps,
        ) is Stopped,
        phase_after_all(steps) is Draining ==> was_closed(steps),
    decreases steps.len(),
{
    if steps.len() > 0 {
        law_no_record_is_discarded_before(steps.drop_last());
    }
}

/// Every record that is offered to the queue is answered once, in order, with what the queue
/// replied: the task is done with it before it takes the next one, and hands to whoever waits
/// for it exactly what became of it.
pub proof fn law_every_record_is_answered_once(steps: Seq<Step>)
    requires
        is_run(steps),
    ensures
        finished(steps).len() == replies(steps).len(),
        received(steps).len() == replies(steps).len() + discarded(steps) + if writing(steps) {
            1int
        } else {
            0int
        },
        writing(steps) ==> discarded(steps) == 0 && phase_after_all(steps) == Phase::Writing(
            pending_of(received(steps).last()),
        ),
        forall|k: int|
            0 <= k < replies(steps).len() ==> finishes(
                pending_of(received(steps)[k]),
                replies(steps)[k],
                #[trigger] finished(steps)[k],
            ),
    decreases steps.len(),
{
    if steps.len() > 0 {
        let before = steps.drop_last();
        law_every_record_is_answered_once(before);
        law_no_record_is_discarded_before(before);
        assert forall|k: int| 0 <= k < replies(steps).len() implies finishes(
            pending_of(received(steps)[k]),
            replies(steps)[k],
            #[trigger] finished(steps)[k],
        ) by {
            if k < replies(before).len() {
                assert(finishes(
                    pending_of(received(before)[k]),
                    replies(before)[k],
                    finished(before)[k],
                ));
            }
        }
    }
}

/// Whether a record that came out of the channel was done with as its reply asks: whoever waits
/// for this very record hears of the reply, and what is logged tells the length of its data and
/// how long it was to wait.
pub open spec fn is_done_with(record: Record, reply: Reply, f: Finished) -> bool {
    &&& f.ack == record.ack
    &&& f.outcome is Ok <==> reply is Placed
    &&& reply matches Reply::Refused(e) ==> f.outcome == Err::<(), WriteError>(e)
    &&& reply is Elapsed ==> is_timeout(f.outcome)
    &&& f.loss is None <==> reply is Placed || reply == Reply::Refused(WriteError::QueueClosed)
    &&& f.loss matches Some(Loss::Refused { len }) ==> reply is Refused && len == octets(
        record.data,
    ).len() as usize
    &&& f.loss matches Some(Loss::NoRoom { len, wait }) ==> reply is Elapsed && len == octets(
        record.data,
    ).len() as usize && wait == record.wait
}

/// The k-th record that comes out of the channel is the k-th that the task is done with: the
/// answer goes where that record's own producer waits, whatever the record holds and however
/// long it may wait.
pub proof fn law_every_producer_is_answered(steps: Seq<Step>)
    requires
        is_run(steps),
    ensures
        finished(steps).len() == replies(steps).len() <= received(steps).len(),
        forall|k: int|
            0 <= k < finished(steps).len() ==> is_done_with(
                received(steps)[k],
                replies(steps)[k],
                #[trigger] finished(steps)[k],
            ),
{
    law_every_record_is_answered_once(steps);
}

/// What can happen to a task: a tick or whatever the channel gives while it is idle, any reply
/// while it is writing, whatever the channel gives while it is draining.
pub proof fn law_what_can_happen_to_a_task(phase: Phase, event: Event)
    ensures
        expects(phase, event) <==> {
            ||| phase is Idle && !(event is Written)
            ||| phase is Writing && event is Written
            ||| phase is Draining && event is Received
        },
{
}

/// A record that an idle task receives is offered to the queue, its own data for as long as it
/// may wait. Nothing is counted and nothing said.
pub proof fn law_a_received_record_is_written(
    before: WriterTask,
    record: Record,
    after: WriterTask,
    r: Stepped,
)
    requires
        before.phase() is Idle,
        steps_to(before, Event::Received(Some(record)), after, r),
    ensures
        r.action matches Action::Write { data, wait } && data == record.data && wait
            == record.wait,
        after.phase() matches Phase::Writing(p) && p.ack == record.ack && p.wait == record.wait
            && p.len == octets(record.data).len() as usize,
        r.counted is None,
        after.reported() == before.reported(),
{
}

/// The record that a queue has replied to is done with; it is counted as failed, by the task's
/// own counter, exactly if it was not placed. The task goes on with the next one, unless the
/// queue is closed: then it drains the channel.
pub proof fn law_a_reply_finishes_the_record(
    before: WriterTask,
    record: Record,
    reply: Reply,
    after: WriterTask,
    r: Stepped,
)
    requires
        before.phase() == Phase::Writing(pending_of(record)),
        steps_to(before, Event::Written(reply), after, r),
    ensures
        reply == Reply::Refused(WriteError::QueueClosed) ==> {
            &&& r.action matches Action::FinishAndDrain(f)
            &&& is_done_with(record, reply, f)
            &&& after.phase() is Draining
        },
        reply != Reply::Refused(WriteError::QueueClosed) ==> {
            &&& r.action matches Action::Finish(f)
            &&& is_done_with(record, reply, f)
            &&& after.phase() is Idle
        },
        r.counted is Some <==> !(reply is Placed),
        r.counted matches Some(c) ==> c.counter() == before.losses().failed_counter(),
        r.failed.since() == r.counted,
        after.reported() == before.reported(),
{
}

/// A record that comes out of the channel of a closed queue is discarded and counted as failed,
/// by the task's own counter. The task drains on.
pub proof fn law_a_drained_record_has_failed(
    before: WriterTask,
    record: Record,
    after: WriterTask,
    r: Stepped,
)
    requires
        before.phase() is Draining,
        steps_to(before, Event::Received(Some(record)), after, r),
    ensures
        r.action is Discard,
        after.phase() is Draining,
        r.counted matches Some(c) && c.counter() == before.losses().failed_counter(),
        after.reported() == before.reported(),
{
}

/// A tick, and the end of the channel, make a report of what both counters stand at and of
/// nothing else, held against the report before. A tick leaves the task idle; at the end of the
/// channel it stops.
pub proof fn law_a_report_is_made(
    before: WriterTask,
    event: Event,
    after: WriterTask,
    r: Stepped,
)
    requires
        expects(before.phase(), event),
        event is Tick || event == Event::Received(None),
        steps_to(before, event, after, r),
    ensures
        event is Tick ==> after.phase() is Idle && (r.action matches Action::Say(said) && says(
            r.dropped.value(),
            r.failed.value(),
            before.reported(),
            said,
        ) && after.reported().losing == (said is Losing)),
        event is Received ==> after.phase() is Stopped && (r.action matches Action::Stop(said)
            && says(r.dropped.value(), r.failed.value(), before.reported(), said)
            && after.reported().losing == (said is Losing)),
        after.reported().dropped == r.dropped.value(),
        after.reported().failed == r.failed.value(),
        r.dropped.counter() == before.losses().dropped_counter(),
        r.failed.counter() == before.losses().failed_counter(),
        r.counted is None,
{
    law_a_report_says_what_is_new(r.dropped.value(), r.failed.value(), before.reported());
}

/// What the counters stood at, at each step of a run that made a report.
pub open spec fn reported_at(steps: Seq<Step>) -> Seq<Counts>
    decreases steps.len(),
{
    if steps.len() == 0 {
        Seq::empty()
    } else if steps.last().action is Say || steps.last().action is Stop {
        reported_at(steps.drop_last()).push(
            Counts { dropped: steps.last().dropped, failed: steps.last().failed },
        )
    } else {
        reported_at(steps.drop_last())
    }
}

/// A run makes a report at every tick and when it ends, and at no other step. Each of them says
/// what is new since the one before it, so that a run tells of every loss once.
pub proof fn law_a_run_reports_at_every_tick(steps: Seq<Step>)
    requires
        is_run(steps),
    ensures
        reported_after_steps(steps) == reported_after_all(reported_at(steps)),
        steps.len() > 0 ==> {
            let step = steps.last();
            &&& step.action is Say <==> step.event is Tick
            &&& step.action is Stop <==> step.event == Event::Received(None)
            &&& step.action matches Action::Say(said) ==> said == last_report(reported_at(steps))
            &&& step.action matches Action::Stop(said) ==> said == last_report(reported_at(steps))
        },
    decreases steps.len(),
{
    if steps.len() > 0 {
        let front = steps.drop_last();
        law_a_run_reports_at_every_tick(front);
        let now = Counts { dropped: steps.last().dropped, failed: steps.last().failed };
        assert(reported_at(front).push(now).drop_last() =~= reported_at(front));
    }
}

/// A record counts as failed exactly if the queue did not place it: of what the channel gave,
/// the records placed, the losses counted and the one that is being written add up.
pub proof fn law_failed_is_received_but_not_placed(steps: Seq<Step>)
    requires
        is_run(steps),
    ensures
        received(steps).len() == placed(steps) + counted(steps) + if writing(steps) {
            1int
        } else {
            0int
        },
        replies(steps).len() + discarded(steps) == placed(steps) + counted(steps),
    decreases steps.len(),
{
    if steps.len() > 0 {
        law_failed_is_received_but_not_placed(steps.drop_last());
        law_every_record_is_answered_once(steps.drop_last());
    }
}

/// Whether the channel accepted these records and gave them in order, and nothing only once all
/// of them were out.
pub open spec fn gave(accepted: Seq<Record>, steps: Seq<Step>) -> bool {
    &&& received(steps).is_prefix_of(accepted)
    &&& steps.len() > 0 && steps.last().event == Event::Received(None) ==> received(steps)
        == accepted
}

/// Once the task has stopped, the losses it counted are exactly the records that the channel
/// accepted and the queue did not place, also where the queue was closed while the channel held
/// records.
pub proof fn law_a_stopped_task_has_counted_every_loss(accepted: Seq<Record>, steps: Seq<Step>)
    requires
        is_run(steps),
        gave(accepted, steps),
        phase_after_all(steps) is Stopped,
    ensures
        counted(steps) == accepted.len() - placed(steps),
{
    law_failed_is_received_but_not_placed(steps);
    law_when_the_task_stops(steps);
}

/// A task that has stopped has counted as often as records were accepted and not placed, no more
/// and no less.
pub proof fn law_a_task_counts_each_loss_once(
    task: WriterTask,
    accepted: Seq<Record>,
    steps: Seq<Step>,
)
    requires
        went_through(task, steps),
        gave(accepted, steps),
        task.phase() is Stopped,
    ensures
        task.counted() + placed(steps) == accepted.len(),
{
    law_a_stopped_task_has_counted_every_loss(accepted, steps);
}

/// A record that is written counts as failed exactly if whoever waits for it is told of an
/// error.
pub proof fn law_failures_are_the_errors(pending: Pending, reply: Reply, f: Finished)
    requires
        finishes(pending, reply, f),
    ensures
        loses(Phase::Writing(pending), Event::Written(reply)) == (f.outcome is Err),
{
}

/// The task stops exactly when nothing is left to come out of the channel, and nothing happens
/// to it after that.
pub proof fn law_when_the_task_stops(steps: Seq<Step>)
    requires
        is_run(steps),
    ensures
        phase_after_all(steps) is Stopped <==> steps.len() > 0 && steps.last().event
            == Event::Received(None),
        phase_after_all(steps) is Stopped ==> forall|event: Event|
            !#[trigger] expects(phase_after_all(steps), event),
{
    if steps.len() > 0 {
        assert(expects(phase_after_all(steps.drop_last()), steps.last().event));
    }
}

} // verus!
