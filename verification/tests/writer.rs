use bytes::Bytes;
use normfs_types::QueueIdResolver;
use station_queues::backpressure::{Backpressure, IoKind, Reply, WriteError, WRITE_TIMEOUT};
use station_queues::channel::{Offer, Outcome, Record};
use station_queues::losses::{nothing_reported, report_losses, Counters, Report, Reported};
use station_queues::task::{answer, is_loss, write_one, Action, Event, Loss, Phase, WriterTask};
use station_queues::writer::{
    is_dropped, settle, to_offer, Delivery, QueueWriter, DEFAULT_CAPACITY, RESERVE,
};
use tokio::sync::mpsc;
use uintn::UintN;

fn writer(name: &str, capacity: usize) -> (QueueWriter, mpsc::Receiver<Record>) {
    QueueWriter::spawn(QueueIdResolver::new("test").resolve(name), capacity)
}

fn bytes(b: u8) -> Bytes {
    Bytes::from(vec![b])
}

/// Runs the task on everything that the channel holds, on a queue that replies with `reply`.
/// Returns what was offered to the queue, and what the task said if it stopped.
fn drain(
    task: &mut WriterTask,
    rx: &mut mpsc::Receiver<Record>,
    reply: fn(usize) -> Reply,
) -> (Vec<Bytes>, Option<Report>) {
    let mut queue = Vec::new();
    while let Ok(record) = rx.try_recv() {
        match task.step(Event::Received(Some(record))).action {
            Action::Write { data, .. } => queue.push(data),
            _ => panic!("a record is written first"),
        }
        match task.step(Event::Written(reply(queue.len()))).action {
            Action::Finish(finished) => {
                answer(finished);
            }
            Action::FinishAndDrain(finished) => {
                answer(finished);
                rx.close();
                return (queue, Some(discard(task, rx)));
            }
            _ => panic!("the record is done with"),
        }
    }
    (queue, None)
}

/// Takes out what a closed channel still holds. Returns what the task said when it stopped.
fn discard(task: &mut WriterTask, rx: &mut mpsc::Receiver<Record>) -> Report {
    loop {
        match task.step(Event::Received(rx.try_recv().ok())).action {
            Action::Discard => {}
            Action::Stop(report) => return report,
            _ => panic!("nothing is written to a closed queue"),
        }
    }
}

fn place(n: usize) -> Reply {
    Reply::Placed(UintN::from(n as u64))
}

#[test]
fn records_reach_the_queue_in_the_order_they_were_handed_over() {
    let (writer, mut rx) = QueueWriter::open(QueueIdResolver::new("test").resolve("ordering"));

    for i in 0u8..7 {
        writer.write(Bytes::from(vec![i]), Backpressure::Keep);
    }
    let (record, mut ack) = writer.write_awaiting(Bytes::from(vec![7u8]), WRITE_TIMEOUT);
    assert!(writer.channel().try_send(record).is_ok());

    let mut task = writer.task();
    let (queue, stopped) = drain(&mut task, &mut rx, place);
    assert!(stopped.is_none());
    writer
        .awaited(true, ack.try_recv().ok())
        .expect("write_awaiting");
    assert_eq!(
        queue,
        (0u8..8).map(|i| Bytes::from(vec![i])).collect::<Vec<_>>()
    );
    assert_eq!(writer.counters().failed().get(), 0);
}

/// The receiver is held rather than drained, which is what a stalled disk looks like from the
/// producer's side.
#[test]
fn skippable_records_stop_at_the_reserve() {
    let (writer, _rx) = writer("full", RESERVE * 2);

    for _ in 0..RESERVE * 2 {
        writer.write(Bytes::from_static(b"x"), Backpressure::Skip);
    }
    assert_eq!(writer.capacity().get(), RESERVE);
    assert_eq!(writer.counters().dropped().get(), RESERVE as u64);

    for _ in 0..RESERVE {
        writer.write(Bytes::from_static(b"x"), Backpressure::Keep);
    }
    assert_eq!(writer.capacity().get(), 0, "the reserve is for these");
    assert_eq!(
        writer.counters().dropped().get(),
        RESERVE as u64,
        "none of them was dropped"
    );
}

#[test]
fn what_is_left_of_the_reserve_is_left_alone() {
    let (writer, _rx) = writer("below", 16);
    for _ in 0..13 {
        writer.write(bytes(0), Backpressure::Keep);
    }
    for _ in 0..20 {
        writer.write(bytes(1), Backpressure::Skip);
    }
    assert_eq!(writer.capacity().get(), 3);
    for _ in 0..3 {
        let receipt = writer.write(bytes(2), Backpressure::Keep);
        assert_eq!(receipt.delivery(), Delivery::Queued);
    }
    assert_eq!(writer.counters().dropped().get(), 20);
}

#[test]
fn a_kept_record_is_lost_and_counted_once_the_reserve_is_used_up() {
    let (writer, _rx) = writer("full", 0);
    assert_eq!(writer.capacity().get(), 16);
    for _ in 0..16 {
        let receipt = writer.write(bytes(1), Backpressure::Keep);
        assert_eq!(receipt.delivery(), Delivery::Queued);
    }
    assert_eq!(
        writer.write(bytes(2), Backpressure::Keep).delivery(),
        Delivery::Lost
    );
    assert_eq!(
        writer.write(bytes(3), Backpressure::Skip).delivery(),
        Delivery::Skipped
    );
    assert_eq!(writer.counters().dropped().get(), 2);
}

#[test]
fn without_a_writer_task_nothing_is_counted() {
    let (writer, rx) = writer("gone", 40);
    assert_eq!(writer.capacity().get(), 40);
    drop(rx);
    for policy in [Backpressure::Keep, Backpressure::Skip] {
        assert_eq!(writer.write(bytes(1), policy).delivery(), Delivery::Gone);
    }
    assert_eq!(writer.counters().dropped().get(), 0);
    assert_eq!(writer.counters().failed().get(), 0);
}

#[test]
fn every_record_is_queued_or_counted() {
    let (writer, mut rx) = writer("all", 20);
    let mut queued: u64 = 0;
    for i in 0..60u8 {
        let policy = if i % 3 == 0 {
            Backpressure::Keep
        } else {
            Backpressure::Skip
        };
        if writer.write(bytes(i), policy).delivery() == Delivery::Queued {
            queued += 1;
        }
        if i % 10 == 9 {
            rx.try_recv().expect("a record");
        }
    }
    assert_eq!(queued + writer.counters().dropped().get(), 60);
    assert!(writer.counters().dropped().get() > 0);
}

#[test]
fn the_channel_carries_the_record_unchanged() {
    let (writer, mut rx) = QueueWriter::open(QueueIdResolver::new("test").resolve("one"));
    assert_eq!(writer.capacity().get(), DEFAULT_CAPACITY);
    let copy = writer.clone();
    assert_eq!(
        copy.write(Bytes::from_static(b"frame"), Backpressure::Skip)
            .delivery(),
        Delivery::Queued
    );
    assert_eq!(writer.capacity().get(), DEFAULT_CAPACITY - 1);
    let record = rx.try_recv().expect("a record");
    assert_eq!(record.data, Bytes::from_static(b"frame"));
    assert_eq!(record.wait, 5_000_000_000);
    assert!(record.ack.is_none());
    assert_eq!(copy.queue_id().as_str(), "/test/one");
}

#[test]
fn counting_starts_at_nothing() {
    let counters = Counters::new();
    assert_eq!(counters.dropped().get(), 0);
    assert_eq!(counters.failed().get(), 0);
    counters.count_failed();
    assert_eq!(counters.dropped().get(), 0);
    assert_eq!(counters.failed().get(), 1);
}

#[test]
fn clones_count_together() {
    let (writer, _rx) = writer("clones", 16);
    for _ in 0..16 {
        writer.write(bytes(0), Backpressure::Keep);
    }
    let copy = writer.clone();
    copy.write(bytes(0), Backpressure::Skip);
    writer.write(bytes(0), Backpressure::Skip);
    assert_eq!(writer.counters().dropped().get(), 2);
    assert_eq!(copy.counters().dropped().get(), 2);
}

#[test]
fn a_record_is_offered_or_held_back_by_its_policy() {
    let offered = |policy, free| {
        to_offer(policy, free, QueueWriter::record(bytes(9), 3)).map(|r| (r.data, r.wait))
    };
    assert_eq!(offered(Backpressure::Keep, 0), Some((bytes(9), 3)));
    assert_eq!(offered(Backpressure::Skip, 9), Some((bytes(9), 3)));
    assert_eq!(offered(Backpressure::Skip, 8), None);
    assert_eq!(offered(Backpressure::Skip, 0), None);
}

#[test]
fn deliveries_follow_the_policy() {
    let keep = Backpressure::Keep;
    let skip = Backpressure::Skip;
    assert_eq!(settle(keep, Some(Offer::Sent)), Delivery::Queued);
    assert_eq!(settle(keep, Some(Offer::Full)), Delivery::Lost);
    assert_eq!(settle(keep, Some(Offer::Closed)), Delivery::Gone);
    assert_eq!(settle(skip, Some(Offer::Sent)), Delivery::Queued);
    assert_eq!(settle(skip, Some(Offer::Full)), Delivery::Skipped);
    assert_eq!(settle(skip, Some(Offer::Closed)), Delivery::Gone);
    assert_eq!(settle(skip, None), Delivery::Skipped);
    assert!(is_dropped(Delivery::Lost));
    assert!(is_dropped(Delivery::Skipped));
    assert!(!is_dropped(Delivery::Gone));
    assert!(!is_dropped(Delivery::Queued));
}

fn is_gone(res: Outcome) -> bool {
    match res {
        Err(WriteError::Io { kind, text }) => {
            kind == IoKind::Other && text == "the writer task for queue '/test/gone' is gone"
        }
        _ => false,
    }
}

#[test]
fn a_producer_hears_what_became_of_its_record() {
    let (writer, _rx) = writer("gone", 16);
    assert!(is_gone(writer.awaited(false, None)));
    assert!(is_gone(writer.awaited(false, Some(Ok(())))));
    assert!(is_gone(writer.awaited(true, None)));
    assert!(writer.awaited(true, Some(Ok(()))).is_ok());
    assert!(matches!(
        writer.awaited(true, Some(Err(WriteError::QueueClosed))),
        Err(WriteError::QueueClosed)
    ));
    assert!(is_gone(Err(QueueWriter::gone(writer.queue_id()))));
}

#[test]
fn an_answer_reaches_the_producer_that_waits() {
    let (writer, mut rx) = writer("answer", 16);
    let (record, mut ack) = writer.write_awaiting(bytes(5), 77);
    assert_eq!(record.wait, 77);
    assert!(writer.channel().try_send(record).is_ok());
    let mut task = writer.task();
    let (queue, stopped) = drain(&mut task, &mut rx, |_| {
        Reply::Refused(WriteError::Refused(anyhow::Error::msg("full disk")))
    });
    assert_eq!(queue, vec![bytes(5)]);
    assert!(stopped.is_none());
    match writer.awaited(true, ack.try_recv().ok()) {
        Err(WriteError::Refused(e)) => assert_eq!(e.to_string(), "full disk"),
        _ => panic!("the error got lost"),
    }
    assert_eq!(writer.counters().failed().get(), 1);
}

#[test]
fn a_closed_queue_stops_the_task() {
    let (writer, mut rx) = writer("closed", 16);
    for i in 0..5u8 {
        writer.write(bytes(i), Backpressure::Keep);
    }
    let (record, mut ack) = writer.write_awaiting(bytes(5), 77);
    assert!(writer.channel().try_send(record).is_ok());
    let mut task = writer.task();
    let (queue, stopped) = drain(&mut task, &mut rx, |n| {
        if n == 2 {
            Reply::Refused(WriteError::QueueClosed)
        } else {
            place(n)
        }
    });
    assert_eq!(queue, vec![bytes(0), bytes(1)]);
    assert_eq!(
        writer.counters().failed().get(),
        5,
        "all but the one that was placed"
    );
    assert_eq!(
        stopped,
        Some(Report::Losing {
            skipped: 0,
            refused: 5,
            dropped: 0,
            failed: 5
        })
    );
    assert!(ack.try_recv().is_err(), "the record is gone with the task");
    assert_eq!(
        writer.write(bytes(6), Backpressure::Keep).delivery(),
        Delivery::Gone
    );
    assert_eq!(writer.counters().dropped().get(), 0);
}

#[test]
fn what_is_placed_and_what_failed_add_up() {
    let (writer, mut rx) = writer("sums", 16);
    for i in 0..9u8 {
        writer.write(bytes(i), Backpressure::Keep);
    }
    let mut task = writer.task();
    let (queue, stopped) = drain(&mut task, &mut rx, |n| match n % 3 {
        0 => Reply::Elapsed,
        1 => Reply::Refused(WriteError::WouldBlock),
        _ => place(n),
    });
    assert_eq!(queue.len(), 9);
    assert!(stopped.is_none());
    assert_eq!(writer.counters().failed().get(), 6);
}

#[test]
fn the_task_reports_what_was_lost_and_stops_without_producers() {
    let (writer, _rx) = writer("reports", 16);
    for _ in 0..16 {
        writer.write(bytes(0), Backpressure::Keep);
    }
    let mut task = writer.task();
    assert!(matches!(
        task.step(Event::Tick).action,
        Action::Say(Report::Quiet)
    ));
    writer.write(bytes(0), Backpressure::Skip);
    match task.step(Event::Tick).action {
        Action::Say(report) => assert_eq!(
            report,
            Report::Losing {
                skipped: 1,
                refused: 0,
                dropped: 1,
                failed: 0
            }
        ),
        _ => panic!("a tick is a report"),
    }
    match task.step(Event::Received(None)).action {
        Action::Stop(report) => assert_eq!(
            report,
            Report::KeepingUp {
                dropped: 1,
                failed: 0
            }
        ),
        _ => panic!("nobody is left"),
    }
}

#[test]
fn a_closing_queue_is_reported_with_its_last_loss() {
    let (writer, mut rx) = writer("closing", 16);
    writer.write(bytes(0), Backpressure::Keep);
    let mut task = writer.task();
    task.step(Event::Received(rx.try_recv().ok()));
    let stepped = task.step(Event::Written(Reply::Refused(WriteError::QueueClosed)));
    assert!(stepped.counted.is_some());
    match stepped.action {
        Action::FinishAndDrain(finished) => {
            assert!(matches!(finished.outcome, Err(WriteError::QueueClosed)));
            assert!(finished.loss.is_none());
        }
        _ => panic!("a closed queue stops the task"),
    }
    rx.close();
    assert_eq!(
        discard(&mut task, &mut rx),
        Report::Losing {
            skipped: 0,
            refused: 1,
            dropped: 0,
            failed: 1
        }
    );
}

#[test]
fn losses_worth_a_line() {
    let (outcome, loss) = write_one(4, 9, place(1));
    assert!(outcome.is_ok());
    assert_eq!(loss, None);
    let (outcome, loss) = write_one(4, 9, Reply::Refused(WriteError::QueueClosed));
    assert!(matches!(outcome, Err(WriteError::QueueClosed)));
    assert_eq!(loss, None);
    let (outcome, loss) = write_one(4, 9, Reply::Refused(WriteError::WouldBlock));
    assert!(matches!(outcome, Err(WriteError::WouldBlock)));
    assert_eq!(loss, Some(Loss::Refused { len: 4 }));
    let (outcome, loss) = write_one(4, 9, Reply::Elapsed);
    assert!(matches!(
        outcome,
        Err(WriteError::Io {
            kind: IoKind::TimedOut,
            ..
        })
    ));
    assert_eq!(loss, Some(Loss::NoRoom { len: 4, wait: 9 }));
}

#[test]
fn only_records_that_were_not_placed_are_losses() {
    let record = || Event::Received(Some(QueueWriter::record(bytes(0), 1)));
    for phase in [Phase::Idle, Phase::Draining] {
        assert!(!is_loss(&phase, &Event::Tick));
        assert!(!is_loss(&phase, &Event::Received(None)));
        assert!(!is_loss(&phase, &Event::Written(place(0))));
        assert!(is_loss(&phase, &Event::Written(Reply::Elapsed)));
    }
    assert!(is_loss(
        &Phase::Idle,
        &Event::Written(Reply::Refused(WriteError::QueueClosed))
    ));
    assert!(!is_loss(&Phase::Idle, &record()));
    assert!(is_loss(&Phase::Draining, &record()));
}

#[test]
fn a_quiet_writer_stays_quiet_and_a_recovered_one_says_so_once() {
    let mut reported = nothing_reported();
    assert_eq!(report_losses(0, 0, &mut reported), Report::Quiet);
    assert_eq!(
        report_losses(3, 1, &mut reported),
        Report::Losing {
            skipped: 3,
            refused: 1,
            dropped: 3,
            failed: 1
        }
    );
    assert_eq!(
        report_losses(3, 4, &mut reported),
        Report::Losing {
            skipped: 0,
            refused: 3,
            dropped: 3,
            failed: 4
        }
    );
    assert_eq!(
        report_losses(3, 4, &mut reported),
        Report::KeepingUp {
            dropped: 3,
            failed: 4
        }
    );
    assert_eq!(report_losses(3, 4, &mut reported), Report::Quiet);
    assert_eq!(
        reported,
        Reported {
            dropped: 3,
            failed: 4,
            losing: false
        }
    );
}
