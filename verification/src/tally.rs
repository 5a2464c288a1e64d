//! Counters that several threads share: what the library assumes of
//! `std::sync::atomic::AtomicU64`.
//!
//! What a counter stands at changes under the reader's hands, so nothing is said of it but what
//! it was made at, what was done to which counter and what was read off which.
use std::sync::atomic::{AtomicU64, Ordering};
use vstd::prelude::*;

verus! {

/// Shows that one was added to a counter. Only [`add_one`] hands it out. It does not show that
/// nothing else was added: see [`History`](crate::channel::History).
pub struct Counted {
    on: Ghost<AtomicU64>,
}

impl Counted {
    /// The counter.
    pub closed spec fn counter(&self) -> AtomicU64 {
        self.on@
    }
}

/// What was read off a counter. Only [`read`] hands it out.
pub struct Count {
    off: Ghost<AtomicU64>,
    since: Ghost<Option<Counted>>,
    value: u64,
}

impl Count {
    /// The counter.
    pub closed spec fn counter(&self) -> AtomicU64 {
        self.off@
    }

    /// What had been counted before it was read, as far as the reader showed it.
    pub closed spec fn since(&self) -> Option<Counted> {
        self.since@
    }

    /// What it stood at.
    pub closed spec fn value(&self) -> u64 {
        self.value
    }

    /// What it stood at.
    pub fn get(&self) -> (v: u64)
        ensures
            v == self.value(),
    {
        self.value
    }
}

/// What a counter was made at.
pub uninterp spec fn made_at(counter: AtomicU64) -> u64;

/// `AtomicU64::new` makes a counter that stands at `value` until something is added.
#[verifier::external_body]
pub(crate) fn new_counter(value: u64) -> (counter: AtomicU64)
    ensures
        made_at(counter) == value,
{
    AtomicU64::new(value)
}

/// Adds one. What the counter stands at then is not stated.
pub(crate) fn add_one(counter: &AtomicU64) -> (c: Counted)
    ensures
        c.counter() == *counter,
{
    counter.fetch_add(1, Ordering::Relaxed);
    Counted { on: Ghost(*counter) }
}

/// Reads the counter, after what `since` shows was counted. Which number it gives depends on
/// what other threads have added by then.
pub(crate) fn read(counter: &AtomicU64, since: &Option<Counted>) -> (c: Count)
    ensures
        c.counter() == *counter,
        c.since() == *since,
{
    let value = counter.load(Ordering::Relaxed);
    Count { off: Ghost(*counter), since: Ghost(*since), value }
}

} // verus!
