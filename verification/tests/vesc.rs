use bytes::Bytes;
use normfs_types::QueueIdResolver;
use station_queues::backpressure::{Backpressure, Reply, WriteError};
use station_queues::vesc_communicator::{needs_last, Opened, VescTrampaCommunicator};
use station_queues::vesc_model::{
    BoardCommand, BoardPacket, InferenceState, RxEnvelope, VescCommandId, VescTrampaBoard,
    VescTrampaMotorMode, VescTrampaSignalType,
};
use station_queues::vesc_state::{get_last_inference_id_bytes, same_board};
use station_queues::writer::Delivery;
use uintn::UintN;

fn board(uuid: &'static [u8], port: &str) -> VescTrampaBoard {
    VescTrampaBoard {
        uuid: Bytes::from_static(uuid),
        port_name: port.to_string(),
        detail: Bytes::from_static(b"detail"),
    }
}

fn envelope(signal_type: VescTrampaSignalType, board: Option<VescTrampaBoard>) -> RxEnvelope {
    RxEnvelope {
        signal_type,
        board,
        board_packet: None,
        command: None,
        monotonic_stamp_ns: 10,
        local_stamp_ns: 20,
        app_start_id: 30,
    }
}

fn connect(b: VescTrampaBoard) -> RxEnvelope {
    envelope(VescTrampaSignalType::VescTrampaBoardConnect, Some(b))
}

fn disconnect(b: VescTrampaBoard) -> RxEnvelope {
    envelope(VescTrampaSignalType::VescTrampaBoardDisconnect, Some(b))
}

fn packet(b: VescTrampaBoard, command_id: VescCommandId) -> RxEnvelope {
    RxEnvelope {
        board_packet: Some(BoardPacket {
            command_id,
            payload: Bytes::from_static(b"values"),
        }),
        monotonic_stamp_ns: 11,
        local_stamp_ns: 21,
        app_start_id: 31,
        ..envelope(VescTrampaSignalType::VescTrampaBoardPacket, Some(b))
    }
}

fn success(
    b: VescTrampaBoard,
    board_commands: usize,
    motor_mode: Option<VescTrampaMotorMode>,
) -> RxEnvelope {
    RxEnvelope {
        command: Some(BoardCommand {
            board_commands,
            motor_mode,
        }),
        ..envelope(VescTrampaSignalType::VescTrampaCommandSuccess, Some(b))
    }
}

fn id(n: u64) -> UintN {
    UintN::from(n)
}

fn communicator() -> Opened {
    let resolver = QueueIdResolver::new("st");
    VescTrampaCommunicator::new(
        "st",
        resolver.resolve("vesc/rx"),
        resolver.resolve("vesc/tx"),
        resolver.resolve("vesc/inference"),
    )
}

#[test]
fn boards_are_the_same_by_uuid_or_else_by_port() {
    let a = board(b"u1", "p1");
    assert!(same_board(Some(&a), &board(b"u1", "p2")));
    assert!(!same_board(Some(&a), &board(b"u2", "p1")));
    assert!(!same_board(Some(&a), &board(b"", "p1")));
    assert!(!same_board(Some(&board(b"", "p1")), &a));
    assert!(same_board(Some(&board(b"", "p1")), &board(b"", "p1")));
    assert!(!same_board(Some(&board(b"", "p1")), &board(b"", "p2")));
    assert!(!same_board(None, &a));
}

#[test]
fn a_connect_adds_the_board_once() {
    let mut state = InferenceState::new();
    state.update_state(&connect(board(b"u1", "p1")), &id(1), &None);
    state.update_state(&connect(board(b"u1", "p9")), &id(2), &None);
    state.update_state(&connect(board(b"u2", "p2")), &id(3), &None);
    assert_eq!(state.boards.len(), 2);
    let entry = &state.boards[0];
    let known = entry.board.as_ref().expect("a board");
    assert_eq!(known.uuid, Bytes::from_static(b"u1"));
    assert_eq!(known.port_name, "p1");
    assert_eq!(known.detail, Bytes::from_static(b"detail"));
    assert_eq!(entry.motor_mode, VescTrampaMotorMode::Unspecified);
    assert_eq!(entry.monotonic_stamp_ns, 10);
    assert_eq!(entry.local_stamp_ns, 20);
    assert_eq!(entry.app_start_id, 30);
    assert!(entry.values_payload.is_empty());
    assert!(entry.values_rx_pointer.is_empty());
    assert_eq!(entry.values_monotonic_stamp_ns, 0);
    assert_eq!(entry.values_local_stamp_ns, 0);
    assert_eq!(entry.values_app_start_id, 0);
}

#[test]
fn a_disconnect_removes_the_board_and_no_other() {
    let mut state = InferenceState::new();
    for b in [board(b"u1", "p1"), board(b"u2", "p2"), board(b"u3", "p3")] {
        state.update_state(&connect(b), &id(1), &None);
    }
    state.update_state(&disconnect(board(b"u2", "")), &id(2), &None);
    let left: Vec<&str> = state
        .boards
        .iter()
        .map(|b| b.board.as_ref().expect("a board").port_name.as_str())
        .collect();
    assert_eq!(left, vec!["p1", "p3"]);
    state.update_state(&disconnect(board(b"u9", "")), &id(3), &None);
    assert_eq!(state.boards.len(), 2);
    assert_eq!(state.find(&board(b"u3", "")), Some(1));
    assert_eq!(state.find(&board(b"u2", "")), None);
}

#[test]
fn values_come_with_the_pointer_to_their_record() {
    let mut state = InferenceState::new();
    state.update_state(&connect(board(b"u1", "p1")), &id(1), &None);
    state.update_state(&connect(board(b"u2", "p2")), &id(2), &None);
    state.update_state(
        &packet(board(b"u2", "p2"), VescCommandId::GetValues),
        &id(0x0102),
        &None,
    );
    let entry = &state.boards[1];
    assert_eq!(entry.values_payload, Bytes::from_static(b"values"));
    assert_eq!(entry.values_rx_pointer, Bytes::from_static(&[2, 1]));
    assert_eq!(entry.monotonic_stamp_ns, 11);
    assert_eq!(entry.local_stamp_ns, 21);
    assert_eq!(entry.app_start_id, 31);
    assert_eq!(entry.values_monotonic_stamp_ns, 11);
    assert_eq!(entry.values_local_stamp_ns, 21);
    assert_eq!(entry.values_app_start_id, 31);
    assert!(state.boards[0].values_payload.is_empty());
    assert_eq!(state.boards[0].monotonic_stamp_ns, 10);
}

#[test]
fn other_packets_and_unknown_boards_change_nothing() {
    let mut state = InferenceState::new();
    state.update_state(&connect(board(b"u1", "p1")), &id(1), &None);
    state.update_state(
        &packet(board(b"u1", "p1"), VescCommandId::Other(5)),
        &id(2),
        &None,
    );
    state.update_state(
        &packet(board(b"u7", "p1"), VescCommandId::GetValues),
        &id(3),
        &None,
    );
    state.update_state(
        &envelope(
            VescTrampaSignalType::VescTrampaBoardPacket,
            Some(board(b"u1", "p1")),
        ),
        &id(4),
        &None,
    );
    state.update_state(
        &envelope(VescTrampaSignalType::VescTrampaCommand, Some(board(b"u1", "p1"))),
        &id(5),
        &None,
    );
    state.update_state(
        &envelope(VescTrampaSignalType::Other(99), Some(board(b"u1", "p1"))),
        &id(6),
        &None,
    );
    assert_eq!(state.boards.len(), 1);
    assert!(state.boards[0].values_payload.is_empty());
    assert_eq!(state.boards[0].monotonic_stamp_ns, 10);
}

#[test]
fn a_successful_command_sets_the_motor_mode() {
    let b = || board(b"u1", "p1");
    let mut state = InferenceState::new();
    state.update_state(&connect(b()), &id(1), &None);
    state.update_state(&connect(board(b"u2", "p2")), &id(1), &None);
    let hold = Some(VescTrampaMotorMode::Hold);

    state.update_state(&success(b(), 0, hold), &id(2), &None);
    assert_eq!(state.boards[0].motor_mode, VescTrampaMotorMode::Hold);
    assert_eq!(state.boards[1].motor_mode, VescTrampaMotorMode::Unspecified);

    state.update_state(
        &success(b(), 0, Some(VescTrampaMotorMode::Other(4))),
        &id(3),
        &None,
    );
    state.update_state(&success(b(), 0, None), &id(4), &None);
    state.update_state(
        &envelope(VescTrampaSignalType::VescTrampaCommandSuccess, Some(b())),
        &id(5),
        &None,
    );
    state.update_state(
        &success(b(), 0, Some(VescTrampaMotorMode::Unspecified)),
        &id(6),
        &None,
    );
    assert_eq!(state.boards[0].motor_mode, VescTrampaMotorMode::Hold);

    state.update_state(&success(b(), 2, hold), &id(7), &None);
    assert_eq!(state.boards[0].motor_mode, VescTrampaMotorMode::Unspecified);
}

#[test]
fn the_last_inference_record_is_named() {
    let mut state = InferenceState::new();
    state.update_state(&connect(board(b"u1", "p1")), &id(1), &Some(id(300)));
    assert_eq!(
        state.last_inference_queue_ptr,
        Bytes::from_static(&[0x2c, 0x01])
    );
    state.update_state(
        &envelope(VescTrampaSignalType::VescTrampaBoardConnect, None),
        &id(2),
        &None,
    );
    assert_eq!(
        state.last_inference_queue_ptr,
        Bytes::from_static(&[0x2c, 0x01])
    );
    state.update_state(&disconnect(board(b"u1", "p1")), &id(3), &None);
    assert!(state.last_inference_queue_ptr.is_empty());
    assert_eq!(
        get_last_inference_id_bytes(&Some(id(7))),
        Bytes::from_static(&[7])
    );
}

#[test]
fn a_disconnect_undoes_a_connect() {
    let mut state = InferenceState::new();
    state.update_state(&connect(board(b"", "p1")), &id(1), &None);
    state.update_state(&connect(board(b"", "p2")), &id(2), &None);
    state.update_state(&disconnect(board(b"", "p2")), &id(3), &None);
    assert_eq!(state.boards.len(), 1);
    assert_eq!(state.find(&board(b"", "p1")), Some(0));
}

#[test]
fn a_placed_record_is_followed_by_a_snapshot_with_its_policy() {
    let mut c = communicator().communicator;
    let due = c.send_rx(
        &connect(board(b"u1", "p1")),
        Backpressure::Keep,
        Reply::Placed(id(1)),
        &None,
    );
    assert_eq!(due.expect("placed"), Some(Backpressure::Keep));
    let due = c.send_rx(
        &packet(board(b"u1", "p1"), VescCommandId::GetValues),
        Backpressure::Skip,
        Reply::Placed(id(2)),
        &Some(id(9)),
    );
    assert_eq!(due.expect("placed"), Some(Backpressure::Skip));
    assert_eq!(
        c.state().boards[0].values_rx_pointer,
        Bytes::from_static(&[2])
    );
    assert_eq!(
        c.state().last_inference_queue_ptr,
        Bytes::from_static(&[9])
    );
    let due = c.send_rx(
        &envelope(VescTrampaSignalType::VescTrampaBoardConnect, None),
        Backpressure::Keep,
        Reply::Placed(id(3)),
        &None,
    );
    assert_eq!(due.expect("placed"), Some(Backpressure::Keep));
    assert_eq!(c.state().boards.len(), 1);
    assert_eq!(
        c.state().last_inference_queue_ptr,
        Bytes::from_static(&[9])
    );
}

#[test]
fn the_last_inference_record_is_needed_for_placed_records_on_a_board() {
    let on_board = connect(board(b"u1", "p1"));
    let on_none = envelope(VescTrampaSignalType::VescTrampaBoardConnect, None);
    assert!(needs_last(&on_board, &Reply::Placed(id(1))));
    assert!(!needs_last(&on_none, &Reply::Placed(id(1))));
    assert!(!needs_last(&on_board, &Reply::Elapsed));
    assert!(!needs_last(
        &on_board,
        &Reply::Refused(WriteError::WouldBlock)
    ));
}

#[test]
fn a_record_that_was_not_placed_leaves_the_state_untouched() {
    let mut c = communicator().communicator;
    let values = || packet(board(b"u1", "p1"), VescCommandId::GetValues);
    let _ = c.send_rx(
        &connect(board(b"u1", "p1")),
        Backpressure::Keep,
        Reply::Placed(id(1)),
        &None,
    );
    let _ = c.send_rx(&values(), Backpressure::Skip, Reply::Placed(id(2)), &None);
    let skipped = c.send_rx(
        &values(),
        Backpressure::Skip,
        Reply::Refused(WriteError::WouldBlock),
        &Some(id(8)),
    );
    assert_eq!(skipped.expect("skipped"), None);
    let late = c.send_rx(&values(), Backpressure::Keep, Reply::Elapsed, &None);
    match late {
        Err(WriteError::Io { text, .. }) => assert_eq!(text, "no page became free in time"),
        _ => panic!("too late"),
    }
    assert!(matches!(
        c.send_rx(
            &disconnect(board(b"u1", "p1")),
            Backpressure::Skip,
            Reply::Refused(WriteError::QueueClosed),
            &None
        ),
        Err(WriteError::QueueClosed)
    ));
    assert_eq!(c.state().boards.len(), 1);
    assert_eq!(
        c.state().boards[0].values_rx_pointer,
        Bytes::from_static(&[2])
    );
    assert!(c.state().last_inference_queue_ptr.is_empty());
}

#[test]
fn commands_and_snapshots_go_to_their_own_queues() {
    let Opened {
        communicator: c,
        mut tx,
        mut inference,
    } = communicator();
    assert_eq!(c.rx_queue_id().as_str(), "/st/vesc/rx");
    assert_eq!(c.tx_queue_id().as_str(), "/st/vesc/tx");
    assert_eq!(c.inference_writer().queue_id().as_str(), "/st/vesc/inference");
    assert_eq!(
        c.inference_states_queue_id().as_str(),
        "/st/inference-states"
    );
    assert_eq!(
        c.send_tx(Bytes::from_static(b"command")).delivery(),
        Delivery::Queued
    );
    assert_eq!(
        c.publish_inference_state(Bytes::from_static(b"state"), Backpressure::Skip)
            .delivery(),
        Delivery::Queued
    );
    assert_eq!(
        tx.try_recv().expect("a command").data,
        Bytes::from_static(b"command")
    );
    assert!(tx.try_recv().is_err());
    assert_eq!(
        inference.try_recv().expect("a snapshot").data,
        Bytes::from_static(b"state")
    );
    assert_eq!(c.tx_writer().capacity().get(), 32);
}
