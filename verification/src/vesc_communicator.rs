//! The VESC Trampa driver's side of the queues: records of the boards go into the rx queue,
//! commands to them into the tx queue, and a snapshot of what is known of the boards follows
//! each record.
use bytes::Bytes;
use normfs_types::QueueId;
use tokio::sync::mpsc;
use uintn::UintN;
use vstd::prelude::*;

use crate::backpressure::{enqueue_with, told, Backpressure, Reply, WriteError, WRITE_TIMEOUT};
use crate::channel::{fed_by, slots, Record};
use crate::ids::{number_octets, queue_path, resolve, resolved_path};
use crate::vesc_model::{EnvelopeView, InferenceState, RxEnvelope, StateView};
use crate::vesc_state::{last_pointer, state_after};
use crate::writer::{QueueWriter, Receipt, DEFAULT_CAPACITY};

verus! {

/// The queue that all drivers' inference records go into in the end.
pub const INFERENCE_STATES: &'static str = "inference-states";

pub struct VescTrampaCommunicator {
    rx_queue_id: QueueId,
    /// Written from a subscriber callback, which cannot wait for a page.
    tx_writer: QueueWriter,
    /// A snapshot follows every rx record and is kept or skipped with it.
    inference_writer: QueueWriter,
    inference_states_queue_id: QueueId,
    state: InferenceState,
}

/// A communicator, and the ends of the two channels that its writer tasks read from: the one
/// of the tx queue and the one of the snapshots.
pub struct Opened {
    pub communicator: VescTrampaCommunicator,
    pub tx: mpsc::Receiver<Record>,
    pub inference: mpsc::Receiver<Record>,
}

/// What is due after a record was offered: `Some` tells the policy of the snapshot that
/// follows it, `None` that there is none.
pub type Due = Option<Backpressure>;

/// Whether `res` is what the producer of an rx record is told: of a record that was placed,
/// that a snapshot with its own policy is due; of any other, what its policy makes of the
/// queue's reply, and no snapshot.
pub open spec fn told_of_rx(
    policy: Backpressure,
    reply: Reply,
    res: Result<Due, WriteError>,
) -> bool {
    if reply is Placed {
        res == Ok::<Due, WriteError>(Some(policy))
    } else {
        match res {
            Ok(due) => due is None && told(policy, reply, Ok(())),
            Err(e) => told(policy, reply, Err(e)),
        }
    }
}

/// What is known of the boards after an rx record that was replied to like this, while `last`
/// is the number of the last inference record.
pub open spec fn known_after(
    known: StateView,
    envelope: EnvelopeView,
    reply: Reply,
    last: Option<UintN>,
) -> StateView {
    match reply {
        Reply::Placed(ptr) => state_after(
            known,
            envelope,
            number_octets(ptr),
            last_pointer(last),
        ),
        _ => known,
    }
}

/// Whether the state takes the number of the last inference record with this record: it was
/// placed, and it is on a board.
pub open spec fn takes_last(envelope: EnvelopeView, reply: Reply) -> bool {
    reply is Placed && envelope.board is Some
}

/// Whether the number of the last inference record has to be looked up for this record.
pub fn needs_last(envelope: &RxEnvelope, reply: &Reply) -> (r: bool)
    ensures
        r == takes_last(envelope@, *reply),
{
    matches!(reply, Reply::Placed(_)) && envelope.board.is_some()
}

impl VescTrampaCommunicator {
    /// What is known of the boards.
    pub closed spec fn known(&self) -> StateView {
        self.state@
    }

    /// The queue that the records of the boards go into.
    pub closed spec fn rx_id(&self) -> QueueId {
        self.rx_queue_id
    }

    /// The queue that the last inference record is looked up in.
    pub closed spec fn states_id(&self) -> QueueId {
        self.inference_states_queue_id
    }

    /// The write handle of the tx queue.
    pub closed spec fn tx(&self) -> QueueWriter {
        self.tx_writer
    }

    /// The write handle of the snapshots.
    pub closed spec fn inference(&self) -> QueueWriter {
        self.inference_writer
    }

    /// A communicator of an instance that knows no board yet. The three queues are to be
    /// started for writing before anything is written.
    pub fn new(
        instance_id: &str,
        rx_queue_id: QueueId,
        tx_queue_id: QueueId,
        inference_queue_id: QueueId,
    ) -> (o: Opened)
        ensures
            o.communicator.known() == (StateView {
                boards: Seq::empty(),
                last_inference_queue_ptr: Seq::empty(),
            }),
            o.communicator.rx_id() == rx_queue_id,
            queue_path(o.communicator.states_id()) == resolved_path(
                instance_id@,
                INFERENCE_STATES@,
            ),
            o.communicator.tx().id() == tx_queue_id,
            slots(o.communicator.tx().sender()) == DEFAULT_CAPACITY,
            o.communicator.tx().losses().from_nothing(),
            fed_by(o.tx) == o.communicator.tx().sender(),
            o.communicator.inference().id() == inference_queue_id,
            slots(o.communicator.inference().sender()) == DEFAULT_CAPACITY,
            o.communicator.inference().losses().from_nothing(),
            fed_by(o.inference) == o.communicator.inference().sender(),
    {
        let inference_states_queue_id = resolve(instance_id, INFERENCE_STATES);
        let (tx_writer, tx) = QueueWriter::open(tx_queue_id);
        let (inference_writer, inference) = QueueWriter::open(inference_queue_id);
        Opened {
            communicator: VescTrampaCommunicator {
                rx_queue_id,
                tx_writer,
                inference_writer,
                inference_states_queue_id,
                state: InferenceState::new(),
            },
            tx,
            inference,
        }
    }

    /// What is known of the boards.
    pub fn state(&self) -> (s: &InferenceState)
        ensures
            s@ == self.known(),
    {
        &self.state
    }

    /// The queue that the records of the boards go into.
    pub fn rx_queue_id(&self) -> (id: &QueueId)
        ensures
            *id == self.rx_id(),
    {
        &self.rx_queue_id
    }

    /// The queue that commands to the boards go into.
    pub fn tx_queue_id(&self) -> (id: &QueueId)
        ensures
            *id == self.tx().id(),
    {
        self.tx_writer.queue_id()
    }

    /// The queue that the last inference record is looked up in.
    pub fn inference_states_queue_id(&self) -> (id: &QueueId)
        ensures
            *id == self.states_id(),
    {
        &self.inference_states_queue_id
    }

    /// The write handle of the tx queue.
    pub fn tx_writer(&self) -> (w: &QueueWriter)
        ensures
            *w == self.tx(),
    {
        &self.tx_writer
    }

    /// The write handle of the snapshots.
    pub fn inference_writer(&self) -> (w: &QueueWriter)
        ensures
            *w == self.inference(),
    {
        &self.inference_writer
    }

    /// Follows one rx record, after the attempt that its policy asks for was replied to.
    /// `last` is the number of the last inference record, if there is one; where
    /// [`needs_last`] says no, nothing depends on it.
    ///
    /// The caller says whether the record may be skipped: a values packet that the next tick
    /// replaces may, while a board appearing or going away, a command's result and the packet
    /// answering a command may not.
    ///
    /// A record that was not placed leaves the state untouched, so its pointer keeps naming
    /// the last record that was placed.
    pub fn send_rx(
        &mut self,
        envelope: &RxEnvelope,
        policy: Backpressure,
        reply: Reply,
        last: &Option<UintN>,
    ) -> (res: Result<Due, WriteError>)
        ensures
            told_of_rx(policy, reply, res),
            final(self).known() == known_after(old(self).known(), envelope@, reply, *last),
            final(self).rx_id() == old(self).rx_id(),
            final(self).states_id() == old(self).states_id(),
            final(self).tx() == old(self).tx(),
            final(self).inference() == old(self).inference(),
    {
        match reply {
            Reply::Placed(ptr) => {
                self.state.update_state(envelope, &ptr, last);
                Ok(Some(policy))
            },
            other => match enqueue_with(policy, other) {
                Ok(()) => Ok(None),
                Err(e) => Err(e),
            },
        }
    }

    /// Never waits: the writer task reports what it could not place. `encoded` is the
    /// command's envelope.
    pub fn send_tx(&self, encoded: Bytes) -> (r: Receipt)
        ensures
            r.is_of(
                (Record { data: encoded, wait: WRITE_TIMEOUT, ack: None }),
                Backpressure::Keep,
                self.tx(),
            ),
            r.history() == r.effects(),
    {
        self.tx_writer.write(encoded, Backpressure::Keep)
    }

    /// A snapshot that follows a skippable record is replaced by the next one; a snapshot that
    /// follows a connect, disconnect or command result is the only one that says so, and is
    /// kept with it. `encoded` is the state.
    pub fn publish_inference_state(&self, encoded: Bytes, policy: Backpressure) -> (r: Receipt)
        ensures
            r.is_of(
                (Record { data: encoded, wait: WRITE_TIMEOUT, ack: None }),
                policy,
                self.inference(),
            ),
            r.history() == r.effects(),
    {
        self.inference_writer.write(encoded, policy)
    }
}

} // verus!
