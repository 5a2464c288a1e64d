use bytes::Bytes;
use normfs_types::QueueIdResolver;
use station_queues::backpressure::STARTUP_WRITE_TIMEOUT;
use station_queues::main_queue::{
    MainQueue, RootQueueEnvelope, RootQueueEnvelopeType, Stamps, MAIN_QUEUE_CAPACITY, MAIN_QUEUE_ID,
};
use station_queues::writer::Delivery;

fn stamps() -> Stamps {
    Stamps {
        monotonic_stamp_ns: 1,
        local_stamp_ns: 2,
        app_start_id: 3,
    }
}

#[test]
fn the_app_start_names_the_run() {
    let (main, mut rx) = MainQueue::new("st", Bytes::from_static(b"id"));
    assert_eq!(MAIN_QUEUE_ID, "main");
    assert_eq!(main.writer().queue_id().as_str(), "/st/main");
    assert_eq!(main.writer().capacity().get(), MAIN_QUEUE_CAPACITY);
    assert_eq!(MAIN_QUEUE_CAPACITY, 256);

    let envelope: RootQueueEnvelope<u8> = main.send_app_start(stamps());
    assert_eq!(envelope.envelope_type, RootQueueEnvelopeType::RqetAppStart);
    assert_eq!(envelope.stamps, stamps());
    assert_eq!(envelope.station_uuid, Bytes::from_static(b"id"));
    assert!(envelope.queue.is_none());

    let (record, mut ack) = main.start_record(Bytes::from_static(b"start"));
    assert_eq!(record.wait, STARTUP_WRITE_TIMEOUT);
    assert!(main.writer().channel().try_send(record).is_ok());
    let record = rx.try_recv().expect("the start");
    assert_eq!(record.data, Bytes::from_static(b"start"));
    record.ack.expect("somebody waits").send(Ok(())).expect("sent");
    assert!(main.writer().awaited(true, ack.try_recv().ok()).is_ok());
}

#[test]
fn a_queue_start_names_the_queue() {
    let resolver = QueueIdResolver::new("st");
    let (main, mut rx) = MainQueue::new("st", Bytes::from_static(b"id"));
    let envelope = main.send_queue_start(
        &resolver.resolve("vesc/rx"),
        6,
        vec!["a".to_string()],
        stamps(),
    );
    assert_eq!(envelope.envelope_type, RootQueueEnvelopeType::RqetQueueStart);
    assert_eq!(envelope.stamps, stamps());
    assert_eq!(envelope.station_uuid, Bytes::from_static(b"id"));
    let queue = envelope.queue.expect("the queue");
    assert_eq!(queue.id, "/st/vesc/rx");
    assert_eq!(queue.data_type, 6);
    assert_eq!(queue.opts, vec!["a".to_string()]);

    assert_eq!(
        main.send_envelope(Bytes::from_static(b"queue")).delivery(),
        Delivery::Queued
    );
    let record = rx.try_recv().expect("the registration");
    assert_eq!(record.data, Bytes::from_static(b"queue"));
    assert!(record.ack.is_none());
}

#[test]
fn every_registration_has_a_slot() {
    let (main, _rx) = MainQueue::new("st", Bytes::from_static(b"id"));
    let (start, _ack) = main.start_record(Bytes::from_static(b"start"));
    assert!(main.writer().channel().try_send(start).is_ok());
    for _ in 1..MAIN_QUEUE_CAPACITY {
        assert_eq!(
            main.send_envelope(Bytes::from_static(b"queue")).delivery(),
            Delivery::Queued
        );
    }
    assert_eq!(main.writer().counters().dropped().get(), 0);
    assert_eq!(
        main.send_envelope(Bytes::from_static(b"queue")).delivery(),
        Delivery::Lost
    );
    assert_eq!(main.writer().counters().dropped().get(), 1);
}
