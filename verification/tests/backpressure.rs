use station_queues::backpressure::{
    attempt, enqueue_waiting, enqueue_with, timed_out, try_enqueue_with, Attempt, Backpressure,
    IoKind, Reply, WriteError, STARTUP_WRITE_TIMEOUT, WRITE_TIMEOUT,
};
use uintn::UintN;

fn placed() -> Reply {
    Reply::Placed(UintN::from(7u64))
}

fn is_timeout(res: Result<(), WriteError>) -> bool {
    match res {
        Err(WriteError::Io { kind, text }) => {
            kind == IoKind::TimedOut && text == "no page became free in time"
        }
        _ => false,
    }
}

#[test]
fn the_policy_decides_whether_to_wait() {
    assert_eq!(attempt(Backpressure::Skip), Attempt::TryOnce);
    assert_eq!(
        attempt(Backpressure::Keep),
        Attempt::WaitFor(5_000_000_000)
    );
    assert_eq!(WRITE_TIMEOUT, 5_000_000_000);
    assert_eq!(STARTUP_WRITE_TIMEOUT, 30_000_000_000);
}

#[test]
fn a_placed_record_is_fine_either_way() {
    assert!(enqueue_with(Backpressure::Skip, placed()).is_ok());
    assert!(enqueue_with(Backpressure::Keep, placed()).is_ok());
    assert!(enqueue_waiting(placed()).is_ok());
    assert!(try_enqueue_with(Ok(UintN::from(1u64)), Backpressure::Skip).is_ok());
    assert!(try_enqueue_with(Ok(UintN::from(1u64)), Backpressure::Keep).is_ok());
}

#[test]
fn a_full_queue_is_no_error_for_a_record_that_may_be_skipped() {
    assert!(enqueue_with(
        Backpressure::Skip,
        Reply::Refused(WriteError::WouldBlock)
    )
    .is_ok());
    assert!(try_enqueue_with(Err(WriteError::WouldBlock), Backpressure::Skip).is_ok());
}

#[test]
fn a_full_queue_is_told_of_a_record_to_be_kept() {
    assert!(matches!(
        try_enqueue_with(Err(WriteError::WouldBlock), Backpressure::Keep),
        Err(WriteError::WouldBlock)
    ));
    assert!(matches!(
        enqueue_with(
            Backpressure::Keep,
            Reply::Refused(WriteError::WouldBlock)
        ),
        Err(WriteError::WouldBlock)
    ));
}

#[test]
fn other_errors_are_told_as_they_are() {
    for policy in [Backpressure::Skip, Backpressure::Keep] {
        assert!(matches!(
            enqueue_with(policy, Reply::Refused(WriteError::QueueClosed)),
            Err(WriteError::QueueClosed)
        ));
        let refused = WriteError::Refused(anyhow::Error::msg("too large"));
        match try_enqueue_with(Err(refused), policy) {
            Err(WriteError::Refused(e)) => assert_eq!(e.to_string(), "too large"),
            _ => panic!("the error got lost"),
        }
    }
}

#[test]
fn a_wait_that_took_too_long_is_a_timeout() {
    assert!(is_timeout(enqueue_waiting(Reply::Elapsed)));
    assert!(is_timeout(enqueue_with(Backpressure::Keep, Reply::Elapsed)));
    assert!(is_timeout(enqueue_with(Backpressure::Skip, Reply::Elapsed)));
    assert!(is_timeout(Err(timed_out())));
}
