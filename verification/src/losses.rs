//! Counting the records that a queue lost, and telling of them.
use std::sync::atomic::AtomicU64;
use std::sync::Arc;
use vstd::prelude::*;

use crate::channel::{Effect, History};
use crate::tally::{add_one, made_at, new_counter, read, Count, Counted};

verus! {

/// How often the writer task looks for new losses, in nanoseconds.
pub const REPORT_INTERVAL: u128 = 5_000_000_000;

/// What a queue has lost so far. Shared by all its producers and its writer task, so that a
/// count read is only ever the count at that moment.
pub struct Counters {
    /// Refused by a full channel, counted by the producer.
    dropped: AtomicU64,
    /// Accepted but not placed, counted by the writer task.
    failed: AtomicU64,
}

impl Counters {
    /// What counts the dropped records.
    pub closed spec fn dropped_counter(&self) -> AtomicU64 {
        self.dropped
    }

    /// What counts the failed records.
    pub closed spec fn failed_counter(&self) -> AtomicU64 {
        self.failed
    }

    /// Whether both counts were started at nothing lost.
    pub open spec fn from_nothing(&self) -> bool {
        &&& made_at(self.dropped_counter()) == 0
        &&& made_at(self.failed_counter()) == 0
    }

    /// Nothing lost yet.
    pub fn new() -> (c: Counters)
        ensures
            c.from_nothing(),
    {
        Counters { dropped: new_counter(0), failed: new_counter(0) }
    }

    /// Counts one record that a full channel refused, and notes that.
    pub fn count_dropped(&self, history: &mut History) -> (c: Counted)
        ensures
            c.counter() == self.dropped_counter(),
            final(history).done() == old(history).done().push(
                Effect::Counted { on: self.dropped_counter() },
            ),
    {
        let counted = add_one(&self.dropped);
        history.note(&counted);
        counted
    }

    /// Counts one record that was accepted but not placed.
    pub fn count_failed(&self) -> (c: Counted)
        ensures
            c.counter() == self.failed_counter(),
    {
        add_one(&self.failed)
    }

    /// How many records were dropped by now.
    pub fn dropped(&self) -> (c: Count)
        ensures
            c.counter() == self.dropped_counter(),
    {
        read(&self.dropped, &None)
    }

    /// How many records have failed by now.
    pub fn failed(&self) -> (c: Count)
        ensures
            c.counter() == self.failed_counter(),
    {
        self.failed_since(&None)
    }

    /// How many records have failed by now, the one that `counted` shows among them.
    pub fn failed_since(&self, counted: &Option<Counted>) -> (c: Count)
        ensures
            c.counter() == self.failed_counter(),
            c.since() == *counted,
    {
        read(&self.failed, counted)
    }
}

/// The writer task's hold on the counters: it counts what failed, and reads both. How often it
/// has counted is known, since nothing is counted through it in any other way.
pub struct Failures {
    counters: Arc<Counters>,
    counted: Ghost<nat>,
}

impl Failures {
    /// The counters.
    pub closed spec fn losses(&self) -> Counters {
        *self.counters
    }

    /// How often a record was counted through it.
    pub closed spec fn counted(&self) -> nat {
        self.counted@
    }

    /// Counts in `counters`, nothing yet.
    pub fn new(counters: Arc<Counters>) -> (f: Failures)
        ensures
            f.losses() == *counters,
            f.counted() == 0,
    {
        Failures { counters, counted: Ghost(0nat) }
    }

    /// Counts one record that was accepted but not placed.
    pub fn count(&mut self) -> (c: Counted)
        ensures
            c.counter() == old(self).losses().failed_counter(),
            final(self).losses() == old(self).losses(),
            final(self).counted() == old(self).counted() + 1,
    {
        let counted = self.counters.count_failed();
        self.counted = Ghost(self.counted@ + 1);
        counted
    }

    /// How many records were dropped by now.
    pub fn dropped(&self) -> (c: Count)
        ensures
            c.counter() == self.losses().dropped_counter(),
    {
        self.counters.dropped()
    }

    /// How many records have failed by now, the one that `counted` shows among them.
    pub fn failed_since(&self, counted: &Option<Counted>) -> (c: Count)
        ensures
            c.counter() == self.losses().failed_counter(),
            c.since() == *counted,
    {
        self.counters.failed_since(counted)
    }
}

/// What the last report said, so a quiet writer stays quiet and a recovered one does not
/// keep looking like it is still losing records.
#[derive(Clone, Copy, Debug, PartialEq, Eq, Structural)]
pub struct Reported {
    pub dropped: u64,
    pub failed: u64,
    pub losing: bool,
}

/// What there is to say about a queue's losses.
#[derive(Clone, Copy, Debug, PartialEq, Eq, Structural)]
pub enum Report {
    /// Nothing new.
    Quiet,
    /// Records were lost since the last report: so many skipped and so many refused, out of
    /// so many since the start.
    Losing { skipped: u64, refused: u64, dropped: u64, failed: u64 },
    /// None was lost since a report of losses; so many were before.
    KeepingUp { dropped: u64, failed: u64 },
}

/// How far a counter has come from `earlier` to `later`; it starts over after its last number.
pub open spec fn counted_since(earlier: u64, later: u64) -> int {
    if earlier <= later {
        later - earlier
    } else {
        later - earlier + u64::MAX + 1
    }
}

/// Whether a counter has grown since the last report.
pub open spec fn more_lost(dropped: u64, failed: u64, reported: Reported) -> bool {
    dropped > reported.dropped || failed > reported.failed
}

/// What there is to say when the counters stand like this.
pub open spec fn report_of(dropped: u64, failed: u64, reported: Reported) -> Report {
    if more_lost(dropped, failed, reported) {
        Report::Losing {
            skipped: counted_since(reported.dropped, dropped) as u64,
            refused: counted_since(reported.failed, failed) as u64,
            dropped,
            failed,
        }
    } else if reported.losing {
        Report::KeepingUp { dropped, failed }
    } else {
        Report::Quiet
    }
}

/// What has been reported once that is said.
pub open spec fn reported_after(dropped: u64, failed: u64, reported: Reported) -> Reported {
    Reported { dropped, failed, losing: more_lost(dropped, failed, reported) }
}

/// Nothing reported yet.
pub fn nothing_reported() -> (r: Reported)
    ensures
        r == (Reported { dropped: 0, failed: 0, losing: false }),
{
    Reported { dropped: 0, failed: 0, losing: false }
}

/// Says what is new, of counters that stand at `dropped` and `failed`.
pub fn report_losses(dropped: u64, failed: u64, reported: &mut Reported) -> (report: Report)
    ensures
        report == report_of(dropped, failed, *old(reported)),
        *final(reported) == reported_after(dropped, failed, *old(reported)),
{
    let report = if dropped > reported.dropped || failed > reported.failed {
        let skipped: u64 = dropped.wrapping_sub(reported.dropped);
        let refused: u64 = failed.wrapping_sub(reported.failed);
        reported.losing = true;
        Report::Losing { skipped, refused, dropped, failed }
    } else if reported.losing {
        reported.losing = false;
        Report::KeepingUp { dropped, failed }
    } else {
        Report::Quiet
    };
    reported.dropped = dropped;
    reported.failed = failed;
    report
}

/// Whether this is said of counters that stand at `dropped` and `failed`, after a report of
/// them at `earlier`. New losses are told as what each counter has grown by, beside what it
/// stands at; a counter starts over after its last number. Without new ones a writer that was losing records is keeping up, and one that was
/// not has nothing to say.
pub open spec fn says(dropped: u64, failed: u64, earlier: Reported, report: Report) -> bool {
    match report {
        Report::Losing { skipped, refused, dropped: all_dropped, failed: all_failed } => {
            &&& dropped > earlier.dropped || failed > earlier.failed
            &&& all_dropped == dropped && all_failed == failed
            &&& dropped >= earlier.dropped ==> earlier.dropped + skipped == dropped
            &&& dropped < earlier.dropped ==> earlier.dropped + skipped == dropped + u64::MAX + 1
            &&& failed >= earlier.failed ==> earlier.failed + refused == failed
            &&& failed < earlier.failed ==> earlier.failed + refused == failed + u64::MAX + 1
        },
        Report::KeepingUp { dropped: all_dropped, failed: all_failed } => {
            &&& dropped <= earlier.dropped && failed <= earlier.failed
            &&& earlier.losing
            &&& all_dropped == dropped && all_failed == failed
        },
        Report::Quiet => {
            &&& dropped <= earlier.dropped && failed <= earlier.failed
            &&& !earlier.losing
        },
    }
}

/// A report says what is new since the one before, and the next one goes on from there: what it
/// will be held against is what the counters stood at now, and whether this one told of losses.
pub proof fn law_a_report_says_what_is_new(dropped: u64, failed: u64, earlier: Reported)
    ensures
        says(dropped, failed, earlier, report_of(dropped, failed, earlier)),
        reported_after(dropped, failed, earlier).dropped == dropped,
        reported_after(dropped, failed, earlier).failed == failed,
        reported_after(dropped, failed, earlier).losing == (report_of(
            dropped,
            failed,
            earlier,
        ) is Losing),
{
}

} // verus!
