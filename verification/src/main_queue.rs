//! The station's main queue: which run the records belong to, and which queues there are.
use bytes::Bytes;
use normfs_types::QueueId;
use tokio::sync::{mpsc, oneshot};
use vstd::prelude::*;

use crate::backpressure::{Backpressure, STARTUP_WRITE_TIMEOUT, WRITE_TIMEOUT};
use crate::channel::{answered_by, fed_by, slots, Outcome, Record};
use crate::ids::{queue_path, resolve, resolved_path};
use crate::octets::octets;
use crate::writer::{QueueWriter, Receipt};

verus! {

pub const MAIN_QUEUE_ID: &'static str = "main";

/// Registrations come from places that cannot wait, so the channel is sized to never fill.
pub const MAIN_QUEUE_CAPACITY: usize = 256;

#[derive(Clone, Copy, Debug, PartialEq, Eq, Structural)]
pub enum RootQueueEnvelopeType {
    RqetAppStart,
    RqetQueueStart,
}

/// When something was said, and in which run of the station.
#[derive(Clone, Copy, Debug, PartialEq, Eq, Structural)]
pub struct Stamps {
    pub monotonic_stamp_ns: u64,
    pub local_stamp_ns: u64,
    pub app_start_id: u64,
}

/// A queue that was started: its path, the number of the type of its records, and options of
/// its own, which are carried unread.
pub struct QueueData<O> {
    pub id: String,
    pub data_type: i32,
    pub opts: Vec<O>,
}

/// One record of the main queue.
pub struct RootQueueEnvelope<O> {
    pub envelope_type: RootQueueEnvelopeType,
    pub stamps: Stamps,
    pub station_uuid: Bytes,
    pub queue: Option<QueueData<O>>,
}

/// Whether the envelope says that a run of this station has started.
pub open spec fn says_app_start<O>(
    e: RootQueueEnvelope<O>,
    stamps: Stamps,
    station_uuid: Seq<u8>,
) -> bool {
    &&& e.envelope_type == RootQueueEnvelopeType::RqetAppStart
    &&& e.stamps == stamps
    &&& octets(e.station_uuid) == station_uuid
    &&& e.queue is None
}

/// Whether the envelope says that this queue of this station was started.
pub open spec fn says_queue_start<O>(
    e: RootQueueEnvelope<O>,
    queue_id: QueueId,
    data_type: i32,
    opts: Vec<O>,
    stamps: Stamps,
    station_uuid: Seq<u8>,
) -> bool {
    &&& e.envelope_type == RootQueueEnvelopeType::RqetQueueStart
    &&& e.stamps == stamps
    &&& octets(e.station_uuid) == station_uuid
    &&& e.queue matches Some(queue)
    &&& queue.id@ == queue_path(queue_id)
    &&& queue.data_type == data_type
    &&& queue.opts == opts
}

/// An envelope carries the stamps and the station that it was made with, each in its own place.
/// A start of a run names no queue; a start of a queue names that queue by its path, with the
/// type and the options it was started with. Neither can be taken for the other.
pub proof fn law_an_envelope_says_what_was_started<O>(
    e: RootQueueEnvelope<O>,
    queue_id: QueueId,
    data_type: i32,
    opts: Vec<O>,
    stamps: Stamps,
    station_uuid: Seq<u8>,
)
    ensures
        says_app_start(e, stamps, station_uuid) || says_queue_start(
            e,
            queue_id,
            data_type,
            opts,
            stamps,
            station_uuid,
        ) ==> {
            &&& e.stamps.monotonic_stamp_ns == stamps.monotonic_stamp_ns
            &&& e.stamps.local_stamp_ns == stamps.local_stamp_ns
            &&& e.stamps.app_start_id == stamps.app_start_id
            &&& octets(e.station_uuid) == station_uuid
        },
        says_app_start(e, stamps, station_uuid) ==> e.envelope_type is RqetAppStart && e.queue
            is None,
        says_queue_start(e, queue_id, data_type, opts, stamps, station_uuid)
            ==> e.envelope_type is RqetQueueStart && (e.queue matches Some(q) && q.id@
            == queue_path(queue_id) && q.data_type == data_type && q.opts@ == opts@),
{
}

pub struct MainQueue {
    writer: QueueWriter,
    station_uuid: Bytes,
}

impl MainQueue {
    /// The queue's write handle.
    pub closed spec fn handle(&self) -> QueueWriter {
        self.writer
    }

    /// The station's uuid.
    pub closed spec fn uuid(&self) -> Seq<u8> {
        octets(self.station_uuid)
    }

    /// The main queue of an instance, and the end of the channel that its writer task reads
    /// from. The queue is to be started for writing before the task runs.
    pub fn new(instance_id: &str, station_uuid: Bytes) -> (r: (MainQueue, mpsc::Receiver<Record>))
        ensures
            queue_path(r.0.handle().id()) == resolved_path(instance_id@, MAIN_QUEUE_ID@),
            slots(r.0.handle().sender()) == MAIN_QUEUE_CAPACITY,
            r.0.handle().losses().from_nothing(),
            fed_by(r.1) == r.0.handle().sender(),
            r.0.uuid() == octets(station_uuid),
    {
        let queue_id = resolve(instance_id, MAIN_QUEUE_ID);
        let (writer, rx) = QueueWriter::spawn(queue_id, MAIN_QUEUE_CAPACITY);
        (MainQueue { writer, station_uuid }, rx)
    }

    pub fn writer(&self) -> (w: &QueueWriter)
        ensures
            *w == self.handle(),
    {
        &self.writer
    }

    /// Says which run every later record belongs to. See [`MainQueue::start_record`].
    pub fn send_app_start<O>(&self, stamps: Stamps) -> (e: RootQueueEnvelope<O>)
        ensures
            says_app_start(e, stamps, self.uuid()),
    {
        self.create_envelope(RootQueueEnvelopeType::RqetAppStart, None, stamps)
    }

    /// The record of an encoded app start, which waits with [`STARTUP_WRITE_TIMEOUT`], and
    /// where the answer to it comes from.
    pub fn start_record(&self, encoded: Bytes) -> (r: (Record, oneshot::Receiver<Outcome>))
        ensures
            r.0 == (Record {
                data: encoded,
                wait: STARTUP_WRITE_TIMEOUT,
                ack: Some(answered_by(r.1)),
            }),
    {
        self.writer.write_awaiting(encoded, STARTUP_WRITE_TIMEOUT)
    }

    /// Says that a queue was started. See [`MainQueue::send_envelope`].
    pub fn send_queue_start<O>(
        &self,
        queue_id: &QueueId,
        data_type: i32,
        opts: Vec<O>,
        stamps: Stamps,
    ) -> (e: RootQueueEnvelope<O>)
        ensures
            says_queue_start(e, *queue_id, data_type, opts, stamps, self.uuid()),
    {
        let queue_data = QueueData { id: queue_id.as_str().to_owned(), data_type, opts };
        self.create_envelope(RootQueueEnvelopeType::RqetQueueStart, Some(queue_data), stamps)
    }

    pub fn create_envelope<O>(
        &self,
        envelope_type: RootQueueEnvelopeType,
        queue: Option<QueueData<O>>,
        stamps: Stamps,
    ) -> (e: RootQueueEnvelope<O>)
        ensures
            e.envelope_type == envelope_type,
            e.stamps == stamps,
            octets(e.station_uuid) == self.uuid(),
            e.queue == queue,
    {
        RootQueueEnvelope {
            envelope_type,
            stamps,
            station_uuid: self.station_uuid.clone(),
            queue,
        }
    }

    /// Hands an encoded envelope over without ever blocking; it is to be kept.
    pub fn send_envelope(&self, encoded: Bytes) -> (r: Receipt)
        ensures
            r.is_of(
                (Record { data: encoded, wait: WRITE_TIMEOUT, ack: None }),
                Backpressure::Keep,
                self.handle(),
            ),
            r.history() == r.effects(),
    {
        self.writer.write(encoded, Backpressure::Keep)
    }
}

} // verus!
