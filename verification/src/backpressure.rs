//! Writing into a queue from an async task: which way a record is offered, and what the
//! answer means.
//!
//! A queue either waits for a free page or refuses at once. Which one a record gets is a
//! property of the record, not of the queue: a frame, a telemetry sample or a state snapshot
//! is replaced by the next one and may be skipped, while a connect, a disconnect, a
//! registration or a command's result is said once and is kept.
use uintn::UintN;
use vstd::prelude::*;

verus! {

/// How long a record that has to be kept waits for a page, in nanoseconds.
pub const WRITE_TIMEOUT: u128 = 5_000_000_000;

/// Nothing can be read without the startup records, so they get more patience. In
/// nanoseconds.
pub const STARTUP_WRITE_TIMEOUT: u128 = 30_000_000_000;

/// What a full queue means for this record. Neither variant blocks a caller that cannot
/// wait.
#[derive(Clone, Copy, Debug, PartialEq, Eq, Structural)]
pub enum Backpressure {
    /// Nothing later repeats it: wait if the caller can, report if it cannot.
    Keep,
    /// The next one supersedes it: a full queue is not an error.
    Skip,
}

/// Which way an I/O error is told.
#[derive(Clone, Copy, Debug, PartialEq, Eq, Structural)]
pub enum IoKind {
    TimedOut,
    Other,
}

/// `anyhow::Error`, an error of any kind. Carried through, never looked into.
#[verifier::external_type_specification]
#[verifier::external_body]
pub struct ExAnyhowError(anyhow::Error);

/// Why a record was not placed.
#[derive(Debug)]
pub enum WriteError {
    /// The queue is full and the caller would not wait.
    WouldBlock,
    /// The queue takes no more records.
    QueueClosed,
    Io { kind: IoKind, text: String },
    /// Any other reason of the queue's, as it gave it.
    Refused(anyhow::Error),
}

#[verifier::ext_equal]
pub enum ErrorView {
    WouldBlock,
    QueueClosed,
    Io { kind: IoKind, text: Seq<char> },
    Refused(anyhow::Error),
}

impl View for WriteError {
    type V = ErrorView;

    open spec fn view(&self) -> ErrorView {
        match *self {
            WriteError::WouldBlock => ErrorView::WouldBlock,
            WriteError::QueueClosed => ErrorView::QueueClosed,
            WriteError::Io { kind, text } => ErrorView::Io { kind, text: text@ },
            WriteError::Refused(e) => ErrorView::Refused(e),
        }
    }
}

/// How a record is offered to its queue.
#[derive(Clone, Copy, Debug, PartialEq, Eq, Structural)]
pub enum Attempt {
    /// Once, to be refused if the queue is full.
    TryOnce,
    /// Until there is room, but no longer than this many nanoseconds.
    WaitFor(u128),
}

/// What came of an attempt.
#[derive(Debug)]
pub enum Reply {
    /// The record was placed under this number.
    Placed(UintN),
    Refused(WriteError),
    /// The time allowed was over before the queue had answered.
    Elapsed,
}

/// The error of a wait that took too long.
pub open spec fn timed_out_view() -> ErrorView {
    ErrorView::Io { kind: IoKind::TimedOut, text: "no page became free in time"@ }
}

/// The error of a wait that took too long.
pub fn timed_out() -> (e: WriteError)
    ensures
        e@ == timed_out_view(),
{
    WriteError::Io {
        kind: IoKind::TimedOut,
        text: "no page became free in time".to_owned(),
    }
}

/// Whether `res` is what a caller is told who was willing to wait.
pub open spec fn told_after_waiting(reply: Reply, res: Result<(), WriteError>) -> bool {
    match reply {
        Reply::Placed(_) => res is Ok,
        Reply::Refused(e) => res == Err::<(), WriteError>(e),
        Reply::Elapsed => res matches Err(e) && e@ == timed_out_view(),
    }
}

/// Whether `res` is what a caller is told whose record has this policy: a full queue is no
/// error for a record that may be skipped, and everything else is told as it is.
pub open spec fn told(policy: Backpressure, reply: Reply, res: Result<(), WriteError>) -> bool {
    if policy == Backpressure::Skip && reply == Reply::Refused(WriteError::WouldBlock) {
        res is Ok
    } else {
        told_after_waiting(reply, res)
    }
}

/// How a record with this policy is offered from an async task.
pub open spec fn attempt_of(policy: Backpressure) -> Attempt {
    match policy {
        Backpressure::Skip => Attempt::TryOnce,
        Backpressure::Keep => Attempt::WaitFor(WRITE_TIMEOUT),
    }
}

/// How a record with this policy is offered from an async task: one that may be skipped is
/// tried once, one to be kept waits up to [`WRITE_TIMEOUT`].
pub fn attempt(policy: Backpressure) -> (a: Attempt)
    ensures
        a == attempt_of(policy),
{
    match policy {
        Backpressure::Skip => Attempt::TryOnce,
        Backpressure::Keep => Attempt::WaitFor(WRITE_TIMEOUT),
    }
}

/// From an async task, after the [`attempt`] that the policy asks for: what the caller is
/// told.
pub fn enqueue_with(policy: Backpressure, reply: Reply) -> (res: Result<(), WriteError>)
    ensures
        told(policy, reply, res),
{
    match policy {
        Backpressure::Skip => match reply {
            Reply::Placed(id) => try_enqueue_with(Ok(id), policy),
            Reply::Refused(e) => try_enqueue_with(Err(e), policy),
            Reply::Elapsed => Err(timed_out()),
        },
        Backpressure::Keep => enqueue_waiting(reply),
    }
}

/// From an async task that waited for a page: what the caller is told.
pub fn enqueue_waiting(reply: Reply) -> (res: Result<(), WriteError>)
    ensures
        told_after_waiting(reply, res),
{
    match reply {
        Reply::Placed(_) => Ok(()),
        Reply::Refused(e) => Err(e),
        Reply::Elapsed => Err(timed_out()),
    }
}

/// From a place that cannot wait, after one try: a full queue is `Ok` for `Skip` and
/// `Err(WouldBlock)` for `Keep`, so the caller can say what was lost.
pub fn try_enqueue_with(tried: Result<UintN, WriteError>, policy: Backpressure) -> (res: Result<
    (),
    WriteError,
>)
    ensures
        told(
            policy,
            match tried {
                Ok(id) => Reply::Placed(id),
                Err(e) => Reply::Refused(e),
            },
            res,
        ),
{
    match tried {
        Ok(_) => Ok(()),
        Err(WriteError::WouldBlock) => match policy {
            Backpressure::Skip => Ok(()),
            Backpressure::Keep => Err(WriteError::WouldBlock),
        },
        Err(e) => Err(e),
    }
}

/// Only a full queue is told differently by policy, and only a record that may be skipped
/// hides it: the producer of one to be kept always hears of it, and whatever else the queue
/// replied is told the same way for both.
pub proof fn law_only_a_full_queue_is_forgiven(reply: Reply, res: Result<(), WriteError>)
    ensures
        reply == Reply::Refused(WriteError::WouldBlock) ==> {
            &&& told(Backpressure::Skip, reply, res) <==> res is Ok
            &&& told(Backpressure::Keep, reply, res) <==> res == Err::<(), WriteError>(
                WriteError::WouldBlock,
            )
        },
        reply != Reply::Refused(WriteError::WouldBlock) ==> {
            &&& told(Backpressure::Skip, reply, res) == told(Backpressure::Keep, reply, res)
            &&& told(Backpressure::Keep, reply, res) && res is Ok ==> reply is Placed
        },
{
}

/// A caller hears exactly what the queue said. It is told `Ok` if the record was placed, or may
/// be skipped and found the queue full, and in no other case. An error of the queue's reaches it
/// as the queue gave it, and a wait that took too long as a timeout.
pub proof fn law_the_caller_hears_what_the_queue_said(
    policy: Backpressure,
    reply: Reply,
    res: Result<(), WriteError>,
)
    requires
        told(policy, reply, res),
    ensures
        res is Ok <==> (reply is Placed || (policy is Skip && reply == Reply::Refused(
            WriteError::WouldBlock,
        ))),
        reply matches Reply::Refused(e) ==> res is Ok || res == Err::<(), WriteError>(e),
        reply is Elapsed ==> is_timeout(res),
{
}

/// The same of a caller who was willing to wait, for whom a full queue is an error too.
pub proof fn law_who_waited_hears_what_the_queue_said(reply: Reply, res: Result<(), WriteError>)
    requires
        told_after_waiting(reply, res),
    ensures
        res is Ok <==> reply is Placed,
        reply matches Reply::Refused(e) ==> res == Err::<(), WriteError>(e),
        reply is Elapsed ==> is_timeout(res),
{
}

/// Only a record to be kept is waited with, and never for ever: for five seconds, in
/// nanoseconds.
pub proof fn law_only_what_is_kept_waits(policy: Backpressure)
    ensures
        attempt_of(policy) is TryOnce <==> policy is Skip,
        attempt_of(policy) matches Attempt::WaitFor(wait) ==> wait == 5 * 1_000_000_000,
{
}

/// Whether it is told that no page became free in time.
pub open spec fn is_timeout(res: Result<(), WriteError>) -> bool {
    &&& res matches Err(WriteError::Io { kind, text })
    &&& kind is TimedOut
    &&& text@ == "no page became free in time"@
}

} // verus!
