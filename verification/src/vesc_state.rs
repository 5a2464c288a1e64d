//! The state inferred from the records of the VESC Trampa driver's rx queue.
use bytes::Bytes;
use uintn::UintN;
use vstd::prelude::*;

use crate::ids::{number_octets, written_number};
use crate::octets::{octets, same_octets};
use crate::vesc_model::{
    BoardState, BoardStateView, BoardView, EnvelopeView, InferenceState,
    RxEnvelope, StateView, VescCommandId, VescTrampaBoard, VescTrampaMotorMode,
    VescTrampaSignalType,
};

verus! {

/// Whether two boards are the same one: by uuid as soon as either has one, else by port.
pub open spec fn same(a: BoardView, b: BoardView) -> bool {
    if a.uuid.len() > 0 || b.uuid.len() > 0 {
        a.uuid == b.uuid
    } else {
        a.port_name == b.port_name
    }
}

/// Whether an entry of the state is the entry of this board.
pub open spec fn entry_of(entry: BoardStateView, board: BoardView) -> bool {
    match entry.board {
        Some(known) => same(known, board),
        None => false,
    }
}

/// Whether the state has an entry of this board.
pub open spec fn knows(boards: Seq<BoardStateView>, board: BoardView) -> bool {
    exists|i: int| 0 <= i < boards.len() && #[trigger] entry_of(boards[i], board)
}

/// Whether the board's first entry is at `i`.
pub open spec fn first_at(boards: Seq<BoardStateView>, board: BoardView, i: int) -> bool {
    &&& 0 <= i < boards.len()
    &&& entry_of(boards[i], board)
    &&& forall|j: int| 0 <= j < i ==> !#[trigger] entry_of(boards[j], board)
}

/// Where the board's first entry is, of a board that has one.
pub open spec fn first(boards: Seq<BoardStateView>, board: BoardView) -> int {
    choose|i: int| first_at(boards, board, i)
}

/// A board's entry right after it connected.
pub open spec fn fresh_entry(board: BoardView, envelope: EnvelopeView) -> BoardStateView {
    BoardStateView {
        board: Some(board),
        motor_mode: VescTrampaMotorMode::Unspecified,
        monotonic_stamp_ns: envelope.monotonic_stamp_ns,
        local_stamp_ns: envelope.local_stamp_ns,
        app_start_id: envelope.app_start_id,
        values_payload: Seq::empty(),
        values_rx_pointer: Seq::empty(),
        values_monotonic_stamp_ns: 0,
        values_local_stamp_ns: 0,
        values_app_start_id: 0,
    }
}

/// The boards after one connected: it is added at the end, unless it is known already.
pub open spec fn with_board(
    boards: Seq<BoardStateView>,
    board: BoardView,
    envelope: EnvelopeView,
) -> Seq<BoardStateView> {
    if knows(boards, board) {
        boards
    } else {
        boards.push(fresh_entry(board, envelope))
    }
}

/// The boards after one disconnected: every entry of it is gone, the others keep their order.
pub open spec fn without_board(boards: Seq<BoardStateView>, board: BoardView) -> Seq<
    BoardStateView,
> {
    boards.filter(|entry: BoardStateView| !entry_of(entry, board))
}

/// An entry after new values of its board: they are `payload`, in the rx record that
/// `pointer` names.
pub open spec fn entry_with_values(
    entry: BoardStateView,
    envelope: EnvelopeView,
    payload: Seq<u8>,
    pointer: Seq<u8>,
) -> BoardStateView {
    BoardStateView {
        board: entry.board,
        motor_mode: entry.motor_mode,
        monotonic_stamp_ns: envelope.monotonic_stamp_ns,
        local_stamp_ns: envelope.local_stamp_ns,
        app_start_id: envelope.app_start_id,
        values_payload: payload,
        values_rx_pointer: pointer,
        values_monotonic_stamp_ns: envelope.monotonic_stamp_ns,
        values_local_stamp_ns: envelope.local_stamp_ns,
        values_app_start_id: envelope.app_start_id,
    }
}

/// The boards after a packet of one: only the answer to a request for values, of a board
/// that is known, changes anything.
pub open spec fn with_values(
    boards: Seq<BoardStateView>,
    board: BoardView,
    envelope: EnvelopeView,
    pointer: Seq<u8>,
) -> Seq<BoardStateView> {
    match envelope.board_packet {
        Some(packet) => if packet.command_id == VescCommandId::GetValues && knows(boards, board) {
            let i = first(boards, board);
            boards.update(i, entry_with_values(boards[i], envelope, packet.payload, pointer))
        } else {
            boards
        },
        None => boards,
    }
}

/// The boards after one's motor mode is set, if it is known.
pub open spec fn with_mode(
    boards: Seq<BoardStateView>,
    board: BoardView,
    mode: VescTrampaMotorMode,
) -> Seq<BoardStateView> {
    if knows(boards, board) {
        let i = first(boards, board);
        boards.update(i, BoardStateView { motor_mode: mode, ..boards[i] })
    } else {
        boards
    }
}

/// The boards after a command to one succeeded. Commands for the board itself leave its mode
/// unknown; otherwise only a hold is remembered.
pub open spec fn with_success(
    boards: Seq<BoardStateView>,
    board: BoardView,
    envelope: EnvelopeView,
) -> Seq<BoardStateView> {
    match envelope.command {
        Some(command) => if command.board_commands > 0 {
            with_mode(boards, board, VescTrampaMotorMode::Unspecified)
        } else if command.motor_mode == Some(VescTrampaMotorMode::Hold) {
            with_mode(boards, board, VescTrampaMotorMode::Hold)
        } else {
            boards
        },
        None => boards,
    }
}

/// The boards after a record on one of them, placed where `pointer` names it.
pub open spec fn boards_after(
    boards: Seq<BoardStateView>,
    board: BoardView,
    envelope: EnvelopeView,
    pointer: Seq<u8>,
) -> Seq<BoardStateView> {
    match envelope.signal_type {
        VescTrampaSignalType::VescTrampaBoardConnect => with_board(boards, board, envelope),
        VescTrampaSignalType::VescTrampaBoardDisconnect => without_board(boards, board),
        VescTrampaSignalType::VescTrampaBoardPacket => with_values(
            boards,
            board,
            envelope,
            pointer,
        ),
        VescTrampaSignalType::VescTrampaCommandSuccess => with_success(boards, board, envelope),
        _ => boards,
    }
}

/// The bytes that name the last inference record, none where there is no such record.
pub open spec fn last_pointer(last: Option<UintN>) -> Seq<u8> {
    match last {
        Some(id) => number_octets(id),
        None => Seq::empty(),
    }
}

/// The state after a record that was placed as `pointer`, while the last inference record
/// is the one that `last` names. A record on no board changes nothing.
pub open spec fn state_after(
    state: StateView,
    envelope: EnvelopeView,
    pointer: Seq<u8>,
    last: Seq<u8>,
) -> StateView {
    match envelope.board {
        Some(board) => StateView {
            boards: boards_after(state.boards, board, envelope, pointer),
            last_inference_queue_ptr: last,
        },
        None => state,
    }
}

/// A board has one first entry.
proof fn lemma_first(boards: Seq<BoardStateView>, board: BoardView, i: int)
    requires
        first_at(boards, board, i),
    ensures
        knows(boards, board),
        first(boards, board) == i,
{
    let j = first(boards, board);
    assert(first_at(boards, board, j));
    assert(entry_of(boards[i], board));
    assert(entry_of(boards[j], board));
}

/// Whether `state_board` is the entry's board and the same one as `board`.
pub fn same_board(state_board: Option<&VescTrampaBoard>, board: &VescTrampaBoard) -> (r: bool)
    ensures
        r == (state_board matches Some(known) && same(known@, board@)),
{
    match state_board {
        Some(known) => {
            if !board.uuid.is_empty() || !known.uuid.is_empty() {
                same_octets(&known.uuid, &board.uuid)
            } else {
                known.port_name == board.port_name
            }
        },
        None => false,
    }
}

/// The bytes that name the last inference record; `last` is its number, if there is one.
pub fn get_last_inference_id_bytes(last: &Option<UintN>) -> (b: Bytes)
    ensures
        octets(b) == last_pointer(*last),
{
    match last {
        Some(id) => written_number(id),
        None => Bytes::new(),
    }
}

impl InferenceState {
    /// No board is known, and no inference record either.
    pub fn new() -> (s: InferenceState)
        ensures
            s@ == (StateView {
                boards: Seq::empty(),
                last_inference_queue_ptr: Seq::empty(),
            }),
    {
        let s = InferenceState { boards: Vec::new(), last_inference_queue_ptr: Bytes::new() };
        assert(s@.boards =~= Seq::<BoardStateView>::empty());
        s
    }

    /// Where the board's first entry is, `None` where the board is not known.
    pub fn find(&self, board: &VescTrampaBoard) -> (r: Option<usize>)
        ensures
            match r {
                Some(i) => first_at(self@.boards, board@, i as int),
                None => !knows(self@.boards, board@),
            },
    {
        let mut i: usize = 0;
        while i < self.boards.len()
            invariant
                i <= self.boards.len(),
                forall|j: int| 0 <= j < i ==> !#[trigger] entry_of(self@.boards[j], board@),
            decreases self.boards.len() - i,
        {
            assert(self@.boards[i as int] == self.boards@[i as int]@);
            if same_board(self.boards[i].board.as_ref(), board) {
                return Some(i);
            }
            i += 1;
        }
        None
    }

    /// Adds the board of a connect, unless it is known already.
    pub fn add_board(&mut self, board: &VescTrampaBoard, envelope: &RxEnvelope)
        ensures
            final(self)@ == (StateView {
                boards: with_board(old(self)@.boards, board@, envelope@),
                ..old(self)@
            }),
    {
        if self.find(board).is_some() {
            return;
        }
        let entry = BoardState {
            board: Some(board.copied()),
            motor_mode: VescTrampaMotorMode::Unspecified,
            monotonic_stamp_ns: envelope.monotonic_stamp_ns,
            local_stamp_ns: envelope.local_stamp_ns,
            app_start_id: envelope.app_start_id,
            values_payload: Bytes::new(),
            values_rx_pointer: Bytes::new(),
            values_monotonic_stamp_ns: 0,
            values_local_stamp_ns: 0,
            values_app_start_id: 0,
        };
        self.boards.push(entry);
        assert(self@.boards =~= old(self)@.boards.push(entry@));
    }

    /// Forgets the board of a disconnect.
    pub fn remove_board(&mut self, board: &VescTrampaBoard)
        ensures
            final(self)@ == (StateView {
                boards: without_board(old(self)@.boards, board@),
                ..old(self)@
            }),
    {
        let ghost kept = |entry: BoardStateView| !entry_of(entry, board@);
        let ghost before = self@.boards;
        let mut i: usize = 0;
        let ghost mut seen: int = 0;
        assert(before.take(0).filter(kept) =~= Seq::empty()) by {
            reveal(Seq::filter);
        }
        while i < self.boards.len()
            invariant
                i <= self.boards.len(),
                0 <= seen <= before.len(),
                kept == (|entry: BoardStateView| !entry_of(entry, board@)),
                before == old(self)@.boards,
                self.last_inference_queue_ptr == old(self).last_inference_queue_ptr,
                self@.boards.take(i as int) == before.take(seen).filter(kept),
                self@.boards.skip(i as int) == before.skip(seen),
            decreases self.boards.len() - i,
        {
            let ghost now = self@.boards;
            assert(now[i as int] == self.boards@[i as int]@);
            assert(now.skip(i as int).len() == before.skip(seen).len());
            assert(now.skip(i as int)[0] == before.skip(seen)[0]);
            assert(now[i as int] == before[seen]);
            assert(before.take(seen + 1).drop_last() =~= before.take(seen));
            assert(before.take(seen + 1).filter(kept) == if kept(before[seen]) {
                before.take(seen).filter(kept).push(before[seen])
            } else {
                before.take(seen).filter(kept)
            }) by {
                reveal(Seq::filter);
            }
            assert(before.skip(seen + 1) =~= now.skip(i as int).skip(1));
            if same_board(self.boards[i].board.as_ref(), board) {
                self.boards.remove(i);
                assert(self@.boards =~= now.remove(i as int));
                assert(self@.boards.take(i as int) =~= now.take(i as int));
                assert(self@.boards.skip(i as int) =~= now.skip(i as int).skip(1));
            } else {
                assert(now.take(i + 1) =~= now.take(i as int).push(now[i as int]));
                assert(now.skip(i + 1) =~= now.skip(i as int).skip(1));
                i += 1;
            }
            proof {
                seen = seen + 1;
            }
        }
        assert(self@.boards.take(i as int) =~= self@.boards);
        assert(before.skip(seen).len() == 0);
        assert(before.take(seen) =~= before);
    }

    /// Takes over the values of a packet that answers a request for them. `ptr` is the
    /// number of the rx record that brought the packet.
    pub fn update_values(
        &mut self,
        board: &VescTrampaBoard,
        envelope: &RxEnvelope,
        ptr: &UintN,
    )
        ensures
            final(self)@ == (StateView {
                boards: with_values(
                    old(self)@.boards,
                    board@,
                    envelope@,
                    number_octets(*ptr),
                ),
                ..old(self)@
            }),
    {
        let packet = match envelope.board_packet.as_ref() {
            Some(packet) => packet,
            None => {
                return ;
            },
        };
        if packet.command_id != VescCommandId::GetValues {
            return ;
        }
        let pointer = written_number(ptr);
        let payload = packet.payload.clone();
        match self.find(board) {
            Some(i) => {
                proof {
                    lemma_first(self@.boards, board@, i as int);
                }
                let ghost before = self@.boards;
                assert(before[i as int] == self.boards@[i as int]@);
                let entry = &mut self.boards[i];
                entry.monotonic_stamp_ns = envelope.monotonic_stamp_ns;
                entry.local_stamp_ns = envelope.local_stamp_ns;
                entry.app_start_id = envelope.app_start_id;
                entry.values_payload = payload;
                entry.values_rx_pointer = pointer;
                entry.values_monotonic_stamp_ns = envelope.monotonic_stamp_ns;
                entry.values_local_stamp_ns = envelope.local_stamp_ns;
                entry.values_app_start_id = envelope.app_start_id;
                assert(self@.boards =~= before.update(
                    i as int,
                    entry_with_values(
                        before[i as int],
                        envelope@,
                        packet@.payload,
                        number_octets(*ptr),
                    ),
                ));
            },
            None => {},
        }
    }

    /// Sets the motor mode of a board, if it is known.
    pub fn set_motor_mode(&mut self, board: &VescTrampaBoard, mode: VescTrampaMotorMode)
        ensures
            final(self)@ == (StateView {
                boards: with_mode(old(self)@.boards, board@, mode),
                ..old(self)@
            }),
    {
        match self.find(board) {
            Some(i) => {
                proof {
                    lemma_first(self@.boards, board@, i as int);
                }
                let ghost before = self@.boards;
                assert(before[i as int] == self.boards@[i as int]@);
                self.boards[i].motor_mode = mode;
                assert(self@.boards =~= before.update(
                    i as int,
                    BoardStateView { motor_mode: mode, ..before[i as int] },
                ));
            },
            None => {},
        }
    }

    /// Follows what a successful command did to the motor mode of its board.
    pub fn update_mode_for_command_success(
        &mut self,
        board: &VescTrampaBoard,
        envelope: &RxEnvelope,
    )
        ensures
            final(self)@ == (StateView {
                boards: with_success(old(self)@.boards, board@, envelope@),
                ..old(self)@
            }),
    {
        let command = match envelope.command.as_ref() {
            Some(command) => command,
            None => {
                return ;
            },
        };
        if command.board_commands > 0 {
            self.set_motor_mode(board, VescTrampaMotorMode::Unspecified);
            return ;
        }
        match command.motor_mode {
            Some(mode) => {
                if mode == VescTrampaMotorMode::Hold {
                    self.set_motor_mode(board, mode);
                }
            },
            None => {},
        }
    }

    /// Follows one record that was placed as number `ptr`, while `last` is the number of the
    /// last inference record.
    pub fn update_state(&mut self, envelope: &RxEnvelope, ptr: &UintN, last: &Option<UintN>)
        ensures
            final(self)@ == state_after(
                old(self)@,
                envelope@,
                number_octets(*ptr),
                last_pointer(*last),
            ),
    {
        let board = match envelope.board.as_ref() {
            Some(board) => board,
            None => {
                return ;
            },
        };
        match envelope.signal_type {
            VescTrampaSignalType::VescTrampaBoardConnect => {
                self.add_board(board, envelope);
            },
            VescTrampaSignalType::VescTrampaBoardDisconnect => {
                self.remove_board(board);
            },
            VescTrampaSignalType::VescTrampaBoardPacket => {
                self.update_values(board, envelope, ptr);
            },
            VescTrampaSignalType::VescTrampaCommand => {},
            VescTrampaSignalType::VescTrampaCommandSuccess => {
                self.update_mode_for_command_success(board, envelope);
            },
            VescTrampaSignalType::Other(_) => {},
        }
        self.last_inference_queue_ptr = get_last_inference_id_bytes(last);
    }
}

} // verus!
