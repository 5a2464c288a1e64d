//! What holds of the inferred state whatever the records say.
use uintn::UintN;
use vstd::prelude::*;

use crate::backpressure::{Backpressure, Reply, WriteError};
use crate::ids::number_octets;
use crate::octets::octets;
use crate::vesc_communicator::{known_after, takes_last, told_of_rx, Due};
use crate::vesc_model::{
    BoardStateView, BoardView, EnvelopeView, InferenceState, RxEnvelope, StateView,
    VescCommandId, VescTrampaMotorMode, VescTrampaSignalType,
};
use crate::vesc_state::{
    boards_after, entry_of, first, first_at, knows, last_pointer, same, state_after, with_board,
    with_success, with_values, without_board,
};

verus! {

/// Every entry is of a board, and no two are of the same one.
pub open spec fn distinct(boards: Seq<BoardStateView>) -> bool {
    &&& forall|i: int| 0 <= i < boards.len() ==> (#[trigger] boards[i]).board is Some
    &&& forall|i: int, j: int|
        0 <= i < j < boards.len() ==> !entry_of(#[trigger] boards[i], (
        #[trigger] boards[j]).board->0)
}

/// The entries that are not of this board, in their order.
pub open spec fn others(boards: Seq<BoardStateView>, board: BoardView) -> Seq<BoardStateView> {
    boards.filter(|e: BoardStateView| !entry_of(e, board))
}

/// Being the same board is an equivalence: every board is the same as itself, the order of
/// the two does not matter, and two boards that are the same as a third are the same.
pub proof fn law_same_is_an_equivalence(a: BoardView, b: BoardView, c: BoardView)
    ensures
        same(a, a),
        same(a, b) == same(b, a),
        same(a, b) && same(b, c) ==> same(a, c),
{
}

/// A known board has a first entry.
proof fn lemma_known_has_first(boards: Seq<BoardStateView>, board: BoardView)
    requires
        knows(boards, board),
    ensures
        first_at(boards, board, first(boards, board)),
    decreases boards.len(),
{
    let i = choose|i: int| 0 <= i < boards.len() && entry_of(boards[i], board);
    let front = boards.drop_last();
    if knows(front, board) {
        lemma_known_has_first(front, board);
        let j = first(front, board);
        assert(first_at(front, board, j));
        assert forall|k: int| 0 <= k < j implies !#[trigger] entry_of(boards[k], board) by {
            assert(!entry_of(front[k], board));
        }
        assert(first_at(boards, board, j));
    } else {
        assert forall|k: int| 0 <= k < boards.len() - 1 implies !#[trigger] entry_of(
            boards[k],
            board,
        ) by {
            assert(front[k] == boards[k]);
            assert(!entry_of(front[k], board));
        }
        assert(first_at(boards, board, i));
    }
}

/// An entry that stays of its board in place of another of the same board leaves the others.
proof fn lemma_others_after_update(
    boards: Seq<BoardStateView>,
    board: BoardView,
    i: int,
    entry: BoardStateView,
)
    requires
        0 <= i < boards.len(),
        entry_of(boards[i], board),
        entry_of(entry, board),
    ensures
        others(boards.update(i, entry), board) == others(boards, board),
{
    let kept = |e: BoardStateView| !entry_of(e, board);
    let front = boards.take(i);
    let back = boards.skip(i + 1);
    assert(boards =~= front + seq![boards[i]] + back);
    assert(boards.update(i, entry) =~= front + seq![entry] + back);
    Seq::filter_distributes_over_add(front + seq![boards[i]], back, kept);
    Seq::filter_distributes_over_add(front, seq![boards[i]], kept);
    Seq::filter_distributes_over_add(front + seq![entry], back, kept);
    Seq::filter_distributes_over_add(front, seq![entry], kept);
    assert(seq![entry].filter(kept) =~= seq![boards[i]].filter(kept)) by {
        reveal(Seq::filter);
        assert(seq![entry].drop_last() =~= Seq::empty());
        assert(seq![boards[i]].drop_last() =~= Seq::empty());
    }
}

/// Taking entries out twice by the same test takes out no more.
proof fn lemma_others_of_others(boards: Seq<BoardStateView>, board: BoardView)
    ensures
        others(others(boards, board), board) == others(boards, board),
    decreases boards.len(),
{
    reveal(Seq::filter);
    if boards.len() > 0 {
        lemma_others_of_others(boards.drop_last(), board);
        let rest = others(boards.drop_last(), board);
        if !entry_of(boards.last(), board) {
            assert(rest.push(boards.last()).drop_last() =~= rest);
        }
    }
}

/// Where no entry is of the board, all are others.
proof fn lemma_all_others(boards: Seq<BoardStateView>, board: BoardView)
    requires
        !knows(boards, board),
    ensures
        others(boards, board) == boards,
    decreases boards.len(),
{
    reveal(Seq::filter);
    if boards.len() > 0 {
        let front = boards.drop_last();
        assert forall|i: int| 0 <= i < front.len() implies !#[trigger] entry_of(
            front[i],
            board,
        ) by {
            assert(!entry_of(boards[i], board));
        }
        lemma_all_others(front, board);
        assert(!entry_of(boards[boards.len() - 1], board));
        assert(front.push(boards.last()) =~= boards);
    }
}

/// A record on one board leaves every other board's entry as it was, and their order.
pub proof fn law_other_boards_are_untouched(
    boards: Seq<BoardStateView>,
    board: BoardView,
    envelope: EnvelopeView,
    pointer: Seq<u8>,
)
    ensures
        others(boards_after(boards, board, envelope, pointer), board) == others(boards, board),
{
    reveal(Seq::filter);
    if knows(boards, board) {
        lemma_known_has_first(boards, board);
    }
    match envelope.signal_type {
        VescTrampaSignalType::VescTrampaBoardConnect => {
            if !knows(boards, board) {
                let after = with_board(boards, board, envelope);
                assert(after.drop_last() =~= boards);
            }
        },
        VescTrampaSignalType::VescTrampaBoardDisconnect => {
            lemma_others_of_others(boards, board);
        },
        VescTrampaSignalType::VescTrampaBoardPacket => {
            if with_values(boards, board, envelope, pointer) != boards {
                let i = first(boards, board);
                lemma_others_after_update(
                    boards,
                    board,
                    i,
                    with_values(boards, board, envelope, pointer)[i],
                );
            }
        },
        VescTrampaSignalType::VescTrampaCommandSuccess => {
            if with_success(boards, board, envelope) != boards {
                let i = first(boards, board);
                lemma_others_after_update(
                    boards,
                    board,
                    i,
                    with_success(boards, board, envelope)[i],
                );
            }
        },
        _ => {},
    }
}

/// What is known of a board that is known: its first entry.
pub open spec fn entry(boards: Seq<BoardStateView>, board: BoardView) -> BoardStateView {
    boards[first(boards, board)]
}

/// The parts of an entry that a packet of values sets and nothing else does.
pub open spec fn same_values(a: BoardStateView, b: BoardStateView) -> bool {
    &&& a.values_payload == b.values_payload
    &&& a.values_rx_pointer == b.values_rx_pointer
    &&& a.values_monotonic_stamp_ns == b.values_monotonic_stamp_ns
    &&& a.values_local_stamp_ns == b.values_local_stamp_ns
    &&& a.values_app_start_id == b.values_app_start_id
}

/// Whether the record brings values of its board.
pub open spec fn brings_values(envelope: EnvelopeView) -> bool {
    &&& envelope.signal_type == VescTrampaSignalType::VescTrampaBoardPacket
    &&& envelope.board_packet matches Some(packet)
    &&& packet.command_id == VescCommandId::GetValues
}

/// A board is known after its connect.
pub proof fn law_connected_board_is_known(
    boards: Seq<BoardStateView>,
    board: BoardView,
    envelope: EnvelopeView,
)
    ensures
        knows(with_board(boards, board, envelope), board),
{
    if !knows(boards, board) {
        let after = with_board(boards, board, envelope);
        assert(entry_of(after[after.len() - 1], board));
    }
}

/// A second connect of a board changes nothing, whatever its stamps.
pub proof fn law_connecting_twice_is_connecting_once(
    boards: Seq<BoardStateView>,
    board: BoardView,
    earlier: EnvelopeView,
    later: EnvelopeView,
)
    ensures
        with_board(with_board(boards, board, earlier), board, later) == with_board(
            boards,
            board,
            earlier,
        ),
{
    law_connected_board_is_known(boards, board, earlier);
}

/// A board is unknown after its disconnect.
pub proof fn law_disconnected_board_is_unknown(boards: Seq<BoardStateView>, board: BoardView)
    ensures
        !knows(without_board(boards, board), board),
{
    let kept = |e: BoardStateView| !entry_of(e, board);
    let after = without_board(boards, board);
    assert forall|i: int| 0 <= i < after.len() implies !#[trigger] entry_of(after[i], board) by {
        boards.lemma_filter_pred(kept, i);
    }
}

/// A disconnect undoes the connect of a board that was unknown before.
pub proof fn law_disconnect_undoes_connect(
    boards: Seq<BoardStateView>,
    board: BoardView,
    envelope: EnvelopeView,
)
    requires
        !knows(boards, board),
    ensures
        without_board(with_board(boards, board, envelope), board) == boards,
{
    reveal(Seq::filter);
    let after = with_board(boards, board, envelope);
    assert(after.drop_last() =~= boards);
    lemma_all_others(boards, board);
}

/// Every other entry is an entry, and they are distinct where all are.
proof fn lemma_others_are_distinct(boards: Seq<BoardStateView>, board: BoardView)
    requires
        distinct(boards),
    ensures
        distinct(others(boards, board)),
        forall|i: int|
            0 <= i < others(boards, board).len() ==> boards.contains(
                #[trigger] others(boards, board)[i],
            ),
    decreases boards.len(),
{
    reveal(Seq::filter);
    if boards.len() > 0 {
        let front = boards.drop_last();
        let last = boards.last();
        assert(distinct(front)) by {
            assert forall|i: int, j: int| 0 <= i < j < front.len() implies !entry_of(
                #[trigger] front[i],
                (#[trigger] front[j]).board->0,
            ) by {
                assert(!entry_of(boards[i], boards[j].board->0));
            }
        }
        lemma_others_are_distinct(front, board);
        let rest = others(front, board);
        let all = others(boards, board);
        assert forall|i: int| 0 <= i < all.len() implies boards.contains(#[trigger] all[i]) by {
            if i < rest.len() {
                let k = choose|k: int| 0 <= k < front.len() && front[k] == rest[i];
                assert(boards[k] == all[i]);
            } else {
                assert(boards[boards.len() - 1] == all[i]);
            }
        }
        assert forall|i: int, j: int| 0 <= i < j < all.len() implies !entry_of(
            #[trigger] all[i],
            (#[trigger] all[j]).board->0,
        ) by {
            if j < rest.len() {
                assert(!entry_of(rest[i], rest[j].board->0));
            } else {
                let k = choose|k: int| 0 <= k < front.len() && front[k] == rest[i];
                assert(!entry_of(boards[k], boards[boards.len() - 1].board->0));
            }
        }
    }
}

/// A record on no board changes nothing, whatever the last inference record is.
pub proof fn law_without_a_board_nothing_changes(
    state: StateView,
    envelope: EnvelopeView,
    pointer: Seq<u8>,
    last: Seq<u8>,
)
    requires
        envelope.board is None,
    ensures
        state_after(state, envelope, pointer, last) == state,
{
}

/// Whatever the record, boards that are distinct stay distinct: no board ever has two entries.
pub proof fn law_boards_stay_distinct(
    state: StateView,
    envelope: EnvelopeView,
    pointer: Seq<u8>,
    last: Seq<u8>,
)
    requires
        distinct(state.boards),
    ensures
        distinct(state_after(state, envelope, pointer, last).boards),
{
    if envelope.board is Some {
        lemma_boards_stay_distinct(state.boards, envelope.board->0, envelope, pointer);
    }
}

proof fn lemma_boards_stay_distinct(
    boards: Seq<BoardStateView>,
    board: BoardView,
    envelope: EnvelopeView,
    pointer: Seq<u8>,
)
    requires
        distinct(boards),
    ensures
        distinct(boards_after(boards, board, envelope, pointer)),
{
    let after = boards_after(boards, board, envelope, pointer);
    if knows(boards, board) {
        lemma_known_has_first(boards, board);
    }
    match envelope.signal_type {
        VescTrampaSignalType::VescTrampaBoardConnect => {
            if !knows(boards, board) {
                assert forall|i: int, j: int| 0 <= i < j < after.len() implies !entry_of(
                    #[trigger] after[i],
                    (#[trigger] after[j]).board->0,
                ) by {
                    if j < boards.len() {
                        assert(!entry_of(boards[i], boards[j].board->0));
                    } else {
                        assert(!entry_of(boards[i], board));
                    }
                }
            }
        },
        VescTrampaSignalType::VescTrampaBoardDisconnect => {
            lemma_others_are_distinct(boards, board);
        },
        _ => {
            assert(after.len() == boards.len());
            assert forall|i: int| 0 <= i < after.len() implies (#[trigger] after[i]).board
                == boards[i].board by {}
            assert forall|i: int, j: int| 0 <= i < j < after.len() implies !entry_of(
                #[trigger] after[i],
                (#[trigger] after[j]).board->0,
            ) by {
                assert(!entry_of(boards[i], boards[j].board->0));
            }
        },
    }
}

/// Among distinct boards, a board's entry is the only one of it.
proof fn lemma_only_entry(boards: Seq<BoardStateView>, board: BoardView, i: int)
    requires
        distinct(boards),
        0 <= i < boards.len(),
        entry_of(boards[i], board),
    ensures
        knows(boards, board),
        first(boards, board) == i,
{
    lemma_known_has_first(boards, board);
    let j = first(boards, board);
    if j < i {
        assert(!entry_of(boards[j], boards[i].board->0));
        law_same_is_an_equivalence(boards[j].board->0, board, boards[i].board->0);
        law_same_is_an_equivalence(boards[i].board->0, board, board);
    }
}

/// A record on one board leaves what is known of any other board exactly as it was.
pub proof fn law_entry_of_another_board_is_kept(
    boards: Seq<BoardStateView>,
    board: BoardView,
    envelope: EnvelopeView,
    pointer: Seq<u8>,
    other: BoardView,
)
    requires
        distinct(boards),
        !same(board, other),
        knows(boards, other),
    ensures
        knows(boards_after(boards, board, envelope, pointer), other),
        entry(boards_after(boards, board, envelope, pointer), other) == entry(boards, other),
{
    let after = boards_after(boards, board, envelope, pointer);
    let kept = |e: BoardStateView| !entry_of(e, board);
    lemma_known_has_first(boards, other);
    let i = first(boards, other);
    let x = boards[i];
    law_same_is_an_equivalence(x.board->0, other, board);
    law_same_is_an_equivalence(board, x.board->0, other);
    law_other_boards_are_untouched(boards, board, envelope, pointer);
    boards.lemma_filter_contains(kept, i);
    after.lemma_filter_contains_rev(kept, x);
    let j = choose|j: int| 0 <= j < after.len() && after[j] == x;
    lemma_boards_stay_distinct(boards, board, envelope, pointer);
    lemma_only_entry(after, other, j);
}

/// The values of a board, and the pointer that names the rx record they came from, change
/// only by a record that brings values of that board: any other record leaves them, as long
/// as the board stays known.
pub proof fn law_values_change_only_by_values(
    boards: Seq<BoardStateView>,
    board: BoardView,
    envelope: EnvelopeView,
    pointer: Seq<u8>,
    other: BoardView,
)
    requires
        distinct(boards),
        !(same(board, other) && brings_values(envelope)),
        knows(boards, other),
        knows(boards_after(boards, board, envelope, pointer), other),
    ensures
        same_values(
            entry(boards_after(boards, board, envelope, pointer), other),
            entry(boards, other),
        ),
{
    let after = boards_after(boards, board, envelope, pointer);
    if !same(board, other) {
        law_entry_of_another_board_is_kept(boards, board, envelope, pointer, other);
    } else {
        lemma_same_knows(boards, board, other);
        lemma_same_knows(after, board, other);
        lemma_known_has_first(boards, other);
        lemma_known_has_first(boards, board);
        lemma_known_has_first(after, other);
        lemma_boards_stay_distinct(boards, board, envelope, pointer);
        let i = first(boards, other);
        match envelope.signal_type {
            VescTrampaSignalType::VescTrampaBoardDisconnect => {
                law_disconnected_board_is_unknown(boards, board);
            },
            _ => {
                assert(after[i].board == boards[i].board);
                lemma_only_entry(after, other, i);
            },
        }
    }
}

/// What is known of a board is known of the same board under its other name.
proof fn lemma_same_knows(boards: Seq<BoardStateView>, a: BoardView, b: BoardView)
    requires
        same(a, b),
    ensures
        forall|i: int| 0 <= i < boards.len() ==> entry_of(#[trigger] boards[i], a) == entry_of(
            boards[i],
            b,
        ),
        knows(boards, a) == knows(boards, b),
{
    assert forall|i: int| 0 <= i < boards.len() implies entry_of(#[trigger] boards[i], a)
        == entry_of(boards[i], b) by {
        if boards[i].board is Some {
            law_same_is_an_equivalence(boards[i].board->0, a, b);
            law_same_is_an_equivalence(boards[i].board->0, b, a);
        }
    }
    if knows(boards, a) {
        let i = choose|i: int| 0 <= i < boards.len() && entry_of(boards[i], a);
        assert(entry_of(boards[i], b));
    }
    if knows(boards, b) {
        let i = choose|i: int| 0 <= i < boards.len() && entry_of(boards[i], b);
        assert(entry_of(boards[i], a));
    }
}

/// While every entry stays of its board, a known board's first entry stays where it is.
proof fn lemma_first_stays(
    boards: Seq<BoardStateView>,
    after: Seq<BoardStateView>,
    board: BoardView,
)
    requires
        knows(boards, board),
        after.len() == boards.len(),
        forall|i: int| 0 <= i < boards.len() ==> (#[trigger] after[i]).board == boards[i].board,
    ensures
        knows(after, board),
        first(after, board) == first(boards, board),
{
    lemma_known_has_first(boards, board);
    let i = first(boards, board);
    assert(entry_of(after[i], board));
    lemma_known_has_first(after, board);
    let k = first(after, board);
    if k < i {
        assert(!entry_of(boards[k], board));
    } else if i < k {
        assert(!entry_of(after[i], board));
    }
}

/// After a record that brings values of a known board, its entry holds them and names that
/// record; its motor mode stays.
pub proof fn law_values_are_taken_over(
    boards: Seq<BoardStateView>,
    board: BoardView,
    envelope: EnvelopeView,
    pointer: Seq<u8>,
)
    requires
        knows(boards, board),
        brings_values(envelope),
    ensures
        ({
            let after = boards_after(boards, board, envelope, pointer);
            &&& knows(after, board)
            &&& entry(after, board).values_payload == envelope.board_packet->0.payload
            &&& entry(after, board).values_rx_pointer == pointer
            &&& entry(after, board).values_monotonic_stamp_ns == envelope.monotonic_stamp_ns
            &&& entry(after, board).values_local_stamp_ns == envelope.local_stamp_ns
            &&& entry(after, board).values_app_start_id == envelope.app_start_id
            &&& entry(after, board).motor_mode == entry(boards, board).motor_mode
        }),
{
    lemma_known_has_first(boards, board);
    lemma_first_stays(boards, boards_after(boards, board, envelope, pointer), board);
}

/// A record that was placed in the rx queue: what it says, the bytes that name it, and the
/// bytes that named the last inference record at the time.
pub struct PlacedRecord {
    pub envelope: EnvelopeView,
    pub pointer: Seq<u8>,
    pub last: Seq<u8>,
}

/// The state before any record.
pub open spec fn empty_state() -> StateView {
    StateView { boards: Seq::empty(), last_inference_queue_ptr: Seq::empty() }
}

/// The state after all of these records, from the empty one.
pub open spec fn state_after_all(records: Seq<PlacedRecord>) -> StateView
    decreases records.len(),
{
    if records.len() == 0 {
        empty_state()
    } else {
        let r = records.last();
        state_after(state_after_all(records.drop_last()), r.envelope, r.pointer, r.last)
    }
}

/// Whether the record brings values of this board.
pub open spec fn brings_values_of(r: PlacedRecord, board: BoardView) -> bool {
    &&& brings_values(r.envelope)
    &&& r.envelope.board matches Some(b)
    &&& same(b, board)
}

/// The bytes that name the last of these records that brought values of the board since it
/// became known, none where there was no such record. Only of a board that is known.
pub open spec fn last_values_record(records: Seq<PlacedRecord>, board: BoardView) -> Seq<u8>
    decreases records.len(),
{
    if records.len() == 0 {
        Seq::empty()
    } else if brings_values_of(records.last(), board) {
        records.last().pointer
    } else if knows(state_after_all(records.drop_last()).boards, board) {
        last_values_record(records.drop_last(), board)
    } else {
        Seq::empty()
    }
}

/// In every state that records lead to from the empty one, no board has two entries.
pub proof fn law_reached_boards_are_distinct(records: Seq<PlacedRecord>)
    ensures
        distinct(state_after_all(records).boards),
    decreases records.len(),
{
    if records.len() > 0 {
        let r = records.last();
        law_reached_boards_are_distinct(records.drop_last());
        law_boards_stay_distinct(
            state_after_all(records.drop_last()),
            r.envelope,
            r.pointer,
            r.last,
        );
    }
}

/// Two names of one board lead to the same entry.
proof fn lemma_same_entry(boards: Seq<BoardStateView>, a: BoardView, b: BoardView)
    requires
        distinct(boards),
        same(a, b),
        knows(boards, a),
    ensures
        entry(boards, a) == entry(boards, b),
{
    lemma_same_knows(boards, a, b);
    lemma_known_has_first(boards, a);
    lemma_only_entry(boards, b, first(boards, a));
}

/// A board becomes known only by a connect, and its entry is then a fresh one.
proof fn lemma_becomes_known(
    boards: Seq<BoardStateView>,
    board: BoardView,
    envelope: EnvelopeView,
    pointer: Seq<u8>,
    other: BoardView,
)
    requires
        distinct(boards),
        !knows(boards, other),
        knows(boards_after(boards, board, envelope, pointer), other),
    ensures
        entry(boards_after(boards, board, envelope, pointer), other).values_rx_pointer
            == Seq::<u8>::empty(),
{
    let after = boards_after(boards, board, envelope, pointer);
    lemma_known_has_first(after, other);
    let j = first(after, other);
    if knows(boards, board) {
        lemma_known_has_first(boards, board);
    }
    match envelope.signal_type {
        VescTrampaSignalType::VescTrampaBoardConnect => {
            if j < boards.len() {
                assert(!entry_of(boards[j], other));
            }
        },
        VescTrampaSignalType::VescTrampaBoardDisconnect => {
            lemma_others_are_distinct(boards, board);
            assert(boards.contains(others(boards, board)[j]));
            let k = choose|k: int| 0 <= k < boards.len() && boards[k] == after[j];
            assert(!entry_of(boards[k], other));
        },
        _ => {
            assert(after[j].board == boards[j].board);
            assert(!entry_of(boards[j], other));
        },
    }
}

/// The pointer of a known board names the last record that brought its values: records on
/// other boards, records on the board that bring no values, and records that were never
/// placed leave it.
pub proof fn law_pointer_names_the_last_values_record(
    records: Seq<PlacedRecord>,
    board: BoardView,
)
    requires
        knows(state_after_all(records).boards, board),
    ensures
        entry(state_after_all(records).boards, board).values_rx_pointer == last_values_record(
            records,
            board,
        ),
    decreases records.len(),
{
    if records.len() > 0 {
        let r = records.last();
        let before = state_after_all(records.drop_last()).boards;
        let after = state_after_all(records).boards;
        law_reached_boards_are_distinct(records.drop_last());
        law_reached_boards_are_distinct(records);
        if r.envelope.board is None {
            law_pointer_names_the_last_values_record(records.drop_last(), board);
        } else {
            let b = r.envelope.board->0;
            if brings_values_of(r, board) {
                lemma_same_knows(after, b, board);
                assert(knows(before, b)) by {
                    lemma_known_has_first(after, b);
                    let j = first(after, b);
                    if !knows(before, b) {
                        assert(after == before);
                    }
                }
                law_values_are_taken_over(before, b, r.envelope, r.pointer);
                lemma_same_entry(after, b, board);
            } else if knows(before, board) {
                law_pointer_names_the_last_values_record(records.drop_last(), board);
                law_values_change_only_by_values(before, b, r.envelope, r.pointer, board);
            } else {
                lemma_becomes_known(before, b, r.envelope, r.pointer, board);
            }
        }
    }
}

/// A known board's motor mode after a successful command to it: unknown if the command held
/// any for the board itself, else a hold if it asked for one, else what it was.
pub proof fn law_mode_after_success(
    boards: Seq<BoardStateView>,
    board: BoardView,
    envelope: EnvelopeView,
    pointer: Seq<u8>,
)
    requires
        knows(boards, board),
        envelope.signal_type == VescTrampaSignalType::VescTrampaCommandSuccess,
        envelope.command is Some,
    ensures
        ({
            let after = boards_after(boards, board, envelope, pointer);
            let command = envelope.command->0;
            &&& knows(after, board)
            &&& entry(after, board).motor_mode == if command.board_commands > 0 {
                VescTrampaMotorMode::Unspecified
            } else if command.motor_mode == Some(VescTrampaMotorMode::Hold) {
                VescTrampaMotorMode::Hold
            } else {
                entry(boards, board).motor_mode
            }
        }),
{
    lemma_known_has_first(boards, board);
    lemma_first_stays(boards, boards_after(boards, board, envelope, pointer), board);
}

/// A board's motor mode changes only by a successful command: any other record leaves it, as
/// long as the board stays known.
pub proof fn law_mode_changes_only_by_success(
    boards: Seq<BoardStateView>,
    board: BoardView,
    envelope: EnvelopeView,
    pointer: Seq<u8>,
    other: BoardView,
)
    requires
        distinct(boards),
        envelope.signal_type != VescTrampaSignalType::VescTrampaCommandSuccess,
        knows(boards, other),
        knows(boards_after(boards, board, envelope, pointer), other),
    ensures
        entry(boards_after(boards, board, envelope, pointer), other).motor_mode == entry(
            boards,
            other,
        ).motor_mode,
{
    let after = boards_after(boards, board, envelope, pointer);
    if !same(board, other) {
        law_entry_of_another_board_is_kept(boards, board, envelope, pointer, other);
    } else {
        lemma_same_knows(boards, board, other);
        lemma_same_knows(after, board, other);
        lemma_known_has_first(boards, other);
        lemma_known_has_first(boards, board);
        lemma_boards_stay_distinct(boards, board, envelope, pointer);
        let i = first(boards, other);
        match envelope.signal_type {
            VescTrampaSignalType::VescTrampaBoardDisconnect => {
                law_disconnected_board_is_unknown(boards, board);
            },
            _ => {
                assert(after[i].board == boards[i].board);
                lemma_only_entry(after, other, i);
            },
        }
    }
}

/// In every state that records lead to from the empty one, a board's motor mode is either
/// unknown or a hold.
pub proof fn law_reached_modes(records: Seq<PlacedRecord>, i: int)
    requires
        0 <= i < state_after_all(records).boards.len(),
    ensures
        ({
            let mode = state_after_all(records).boards[i].motor_mode;
            mode == VescTrampaMotorMode::Unspecified || mode == VescTrampaMotorMode::Hold
        }),
    decreases records.len(),
{
    if records.len() > 0 {
        let r = records.last();
        let before = state_after_all(records.drop_last()).boards;
        let after = state_after_all(records).boards;
        assert forall|k: int| 0 <= k < before.len() implies {
            let mode = (#[trigger] before[k]).motor_mode;
            mode == VescTrampaMotorMode::Unspecified || mode == VescTrampaMotorMode::Hold
        } by {
            law_reached_modes(records.drop_last(), k);
        }
        if r.envelope.board is Some {
            let board = r.envelope.board->0;
            law_reached_boards_are_distinct(records.drop_last());
            if knows(before, board) {
                lemma_known_has_first(before, board);
            }
            if r.envelope.signal_type == VescTrampaSignalType::VescTrampaBoardDisconnect {
                lemma_others_are_distinct(before, board);
                assert(before.contains(others(before, board)[i]));
                let k = choose|k: int| 0 <= k < before.len() && before[k] == after[i];
                assert(before[k] == after[i]);
            }
        }
    }
}

// What each record does to the boards, entry by entry.

/// Whether two boards are one: both tell the same uuid, or neither tells any and both are at
/// the same port.
pub open spec fn one_board(a: BoardView, b: BoardView) -> bool {
    ||| a.uuid.len() > 0 && a.uuid == b.uuid
    ||| a.uuid.len() == 0 && b.uuid.len() == 0 && a.port_name == b.port_name
}

/// Whether the entry names this board.
pub open spec fn names(e: BoardStateView, board: BoardView) -> bool {
    e.board matches Some(known) && one_board(known, board)
}

/// Whether no entry names this board.
pub open spec fn unknown(boards: Seq<BoardStateView>, board: BoardView) -> bool {
    forall|i: int| 0 <= i < boards.len() ==> !names(#[trigger] boards[i], board)
}

/// Whether the entry at `i` is the first that names this board.
pub open spec fn first_named(boards: Seq<BoardStateView>, board: BoardView, i: int) -> bool {
    &&& 0 <= i < boards.len()
    &&& names(boards[i], board)
    &&& forall|j: int| 0 <= j < i ==> !names(#[trigger] boards[j], board)
}

/// Whether `after` differs from `before` at `i` only.
pub open spec fn changed_at(
    before: Seq<BoardStateView>,
    after: Seq<BoardStateView>,
    i: int,
) -> bool {
    &&& after.len() == before.len()
    &&& forall|j: int| 0 <= j < before.len() && j != i ==> #[trigger] after[j] == before[j]
}

/// A board is told from another by its uuid as soon as either has one, whatever the ports are,
/// and by its port where neither has one.
pub proof fn law_one_board_under_two_names(a: BoardView, b: BoardView)
    ensures
        same(a, b) == one_board(a, b),
{
}

/// The first entry that names a board is the one that the state goes by, and a board is known
/// exactly if an entry names it.
pub proof fn law_a_board_is_known_by_its_entry(boards: Seq<BoardStateView>, board: BoardView)
    ensures
        knows(boards, board) == !unknown(boards, board),
        forall|i: int| #[trigger] first_named(boards, board, i) ==> first(boards, board) == i,
        knows(boards, board) ==> first_named(boards, board, first(boards, board)),
{
    assert forall|i: int| 0 <= i < boards.len() implies names(#[trigger] boards[i], board)
        == entry_of(boards[i], board) by {}
    if knows(boards, board) {
        let k = choose|k: int| 0 <= k < boards.len() && entry_of(boards[k], board);
        assert(names(boards[k], board));
        lemma_known_has_first(boards, board);
        let f = first(boards, board);
        assert forall|j: int| 0 <= j < f implies !names(#[trigger] boards[j], board) by {
            assert(!entry_of(boards[j], board));
        }
    } else {
        assert forall|i: int| 0 <= i < boards.len() implies !names(
            #[trigger] boards[i],
            board,
        ) by {
            assert(!entry_of(boards[i], board));
        }
    }
    assert forall|i: int| #[trigger] first_named(boards, board, i) implies first(boards, board)
        == i by {
        assert(entry_of(boards[i], board));
        lemma_known_has_first(boards, board);
        let f = first(boards, board);
        assert(names(boards[f], board));
        if i < f {
            assert(!entry_of(boards[i], board));
        }
    }
}

/// A record on a board says which inference record was the last at the time.
pub proof fn law_the_last_inference_record_is_named(
    state: StateView,
    envelope: EnvelopeView,
    pointer: Seq<u8>,
    last: Seq<u8>,
)
    requires
        envelope.board is Some,
    ensures
        state_after(state, envelope, pointer, last).last_inference_queue_ptr == last,
{
}

/// The bytes of a number name the last inference record, and no bytes say that there is none.
pub proof fn law_no_inference_record_is_named_by_nothing(last: Option<UintN>)
    ensures
        last matches Some(id) ==> last_pointer(last) == number_octets(id),
        last is None ==> last_pointer(last).len() == 0,
{
}

/// A board that connects is added at the end, whatever other boards are known: its entry names
/// it, has the stamps of the record, an unspecified mode, and no values. Every other entry stays
/// as it is and where it is. A board that is known already changes nothing.
pub proof fn law_a_connect_adds_a_fresh_entry(
    state: StateView,
    envelope: EnvelopeView,
    pointer: Seq<u8>,
    last: Seq<u8>,
    board: BoardView,
)
    requires
        envelope.board == Some(board),
        envelope.signal_type is VescTrampaBoardConnect,
    ensures
        ({
            let before = state.boards;
            let after = state_after(state, envelope, pointer, last).boards;
            let e = after[before.len() as int];
            &&& !unknown(before, board) ==> after == before
            &&& unknown(before, board) ==> {
                &&& after.len() == before.len() + 1
                &&& forall|i: int| 0 <= i < before.len() ==> #[trigger] after[i] == before[i]
                &&& e.board == Some(board)
                &&& e.motor_mode is Unspecified
                &&& e.monotonic_stamp_ns == envelope.monotonic_stamp_ns
                &&& e.local_stamp_ns == envelope.local_stamp_ns
                &&& e.app_start_id == envelope.app_start_id
                &&& e.values_payload.len() == 0
                &&& e.values_rx_pointer.len() == 0
                &&& e.values_monotonic_stamp_ns == 0
                &&& e.values_local_stamp_ns == 0
                &&& e.values_app_start_id == 0
            }
        }),
{
    law_a_board_is_known_by_its_entry(state.boards, board);
}

/// A board that disconnects is forgotten: of all entries, those that do not name it are left, as
/// they are and in their order, and no other.
pub proof fn law_a_disconnect_takes_out_one_board(
    state: StateView,
    envelope: EnvelopeView,
    pointer: Seq<u8>,
    last: Seq<u8>,
    board: BoardView,
)
    requires
        envelope.board == Some(board),
        envelope.signal_type is VescTrampaBoardDisconnect,
    ensures
        ({
            let before = state.boards;
            let after = state_after(state, envelope, pointer, last).boards;
            &&& after == before.filter(|e: BoardStateView| !names(e, board))
            &&& unknown(after, board)
            &&& forall|i: int|
                0 <= i < before.len() && !names(#[trigger] before[i], board) ==> after.contains(
                    before[i],
                )
            &&& forall|i: int| 0 <= i < after.len() ==> before.contains(#[trigger] after[i])
        }),
{
    let before = state.boards;
    let after = state_after(state, envelope, pointer, last).boards;
    let kept = |e: BoardStateView| !entry_of(e, board);
    let left = |e: BoardStateView| !names(e, board);
    assert(kept =~= left);
    assert forall|i: int| 0 <= i < after.len() implies !names(#[trigger] after[i], board)
        && before.contains(after[i]) by {
        before.lemma_filter_pred(left, i);
        before.lemma_filter_contains_rev(left, after[i]);
    }
    assert forall|i: int| 0 <= i < before.len() && !names(
        #[trigger] before[i],
        board,
    ) implies after.contains(before[i]) by {
        before.lemma_filter_contains(left, i);
    }
}

/// A packet that answers a request for values changes the first entry that names its board, and
/// no other. Whatever the entry held, it then holds the payload, the bytes that name the record,
/// and the stamps of the record both as its own and as those of its values. The board that it
/// names and the mode stay. A packet of any other kind, or of a board that is not known, changes
/// nothing.
pub proof fn law_a_values_packet_renews_the_entry(
    state: StateView,
    envelope: EnvelopeView,
    pointer: Seq<u8>,
    last: Seq<u8>,
    board: BoardView,
)
    requires
        envelope.board == Some(board),
        envelope.signal_type is VescTrampaBoardPacket,
    ensures
        ({
            let before = state.boards;
            let after = state_after(state, envelope, pointer, last).boards;
            &&& envelope.board_packet is None ==> after == before
            &&& envelope.board_packet matches Some(packet) ==> {
                &&& !(packet.command_id is GetValues) || unknown(before, board) ==> after
                    == before
                &&& packet.command_id is GetValues ==> forall|i: int| #[trigger]
                    first_named(before, board, i) ==> {
                        let e = after[i];
                        &&& changed_at(before, after, i)
                        &&& e.board == before[i].board
                        &&& e.motor_mode == before[i].motor_mode
                        &&& e.monotonic_stamp_ns == envelope.monotonic_stamp_ns
                        &&& e.local_stamp_ns == envelope.local_stamp_ns
                        &&& e.app_start_id == envelope.app_start_id
                        &&& e.values_payload == packet.payload
                        &&& e.values_rx_pointer == pointer
                        &&& e.values_monotonic_stamp_ns == envelope.monotonic_stamp_ns
                        &&& e.values_local_stamp_ns == envelope.local_stamp_ns
                        &&& e.values_app_start_id == envelope.app_start_id
                    }
            }
        }),
{
    law_a_board_is_known_by_its_entry(state.boards, board);
}

/// A command that succeeded changes the mode of the first entry that names its board, and
/// nothing else: to unspecified if the command held any for the board itself, to a hold if it
/// held none and asked for a hold. Any other command, or one to a board that is not known,
/// changes nothing.
pub proof fn law_a_success_sets_the_mode(
    state: StateView,
    envelope: EnvelopeView,
    pointer: Seq<u8>,
    last: Seq<u8>,
    board: BoardView,
)
    requires
        envelope.board == Some(board),
        envelope.signal_type is VescTrampaCommandSuccess,
    ensures
        ({
            let before = state.boards;
            let after = state_after(state, envelope, pointer, last).boards;
            &&& unknown(before, board) || envelope.command is None ==> after == before
            &&& envelope.command matches Some(command) ==> {
                let hold = command.board_commands == 0 && command.motor_mode == Some(
                    VescTrampaMotorMode::Hold,
                );
                &&& command.board_commands == 0 && !hold ==> after == before
                &&& command.board_commands > 0 || hold ==> forall|i: int| #[trigger]
                    first_named(before, board, i) ==> {
                        let e = after[i];
                        &&& changed_at(before, after, i)
                        &&& e.motor_mode is Hold <==> hold
                        &&& e.motor_mode is Unspecified <==> !hold
                        &&& e.board == before[i].board
                        &&& e.monotonic_stamp_ns == before[i].monotonic_stamp_ns
                        &&& e.local_stamp_ns == before[i].local_stamp_ns
                        &&& e.app_start_id == before[i].app_start_id
                        &&& e.values_payload == before[i].values_payload
                        &&& e.values_rx_pointer == before[i].values_rx_pointer
                        &&& e.values_monotonic_stamp_ns == before[i].values_monotonic_stamp_ns
                        &&& e.values_local_stamp_ns == before[i].values_local_stamp_ns
                        &&& e.values_app_start_id == before[i].values_app_start_id
                    }
            }
        }),
{
    law_a_board_is_known_by_its_entry(state.boards, board);
}

/// A command that was only sent, and a record of a kind that the state does not follow, leave
/// every entry.
pub proof fn law_other_records_change_no_entry(
    state: StateView,
    envelope: EnvelopeView,
    pointer: Seq<u8>,
    last: Seq<u8>,
)
    requires
        envelope.signal_type is VescTrampaCommand || envelope.signal_type is Other,
    ensures
        state_after(state, envelope, pointer, last).boards == state.boards,
{
}

// What the records that were placed say of a board, all together.

/// Whether the record is on this board.
pub open spec fn is_on(r: PlacedRecord, board: BoardView) -> bool {
    r.envelope.board matches Some(b) && one_board(b, board)
}

/// Whether the last of these records that said so said that the board is connected.
pub open spec fn connected(records: Seq<PlacedRecord>, board: BoardView) -> bool
    decreases records.len(),
{
    if records.len() == 0 {
        false
    } else if is_on(records.last(), board) {
        match records.last().envelope.signal_type {
            VescTrampaSignalType::VescTrampaBoardConnect => true,
            VescTrampaSignalType::VescTrampaBoardDisconnect => false,
            _ => connected(records.drop_last(), board),
        }
    } else {
        connected(records.drop_last(), board)
    }
}

/// A record on another board makes no board known.
proof fn lemma_stays_unknown(
    boards: Seq<BoardStateView>,
    board: BoardView,
    envelope: EnvelopeView,
    pointer: Seq<u8>,
    other: BoardView,
)
    requires
        !knows(boards, other),
        !(same(board, other) && envelope.signal_type is VescTrampaBoardConnect),
    ensures
        !knows(boards_after(boards, board, envelope, pointer), other),
{
    let after = boards_after(boards, board, envelope, pointer);
    if knows(boards, board) {
        lemma_known_has_first(boards, board);
    }
    assert forall|j: int| 0 <= j < after.len() implies !#[trigger] entry_of(after[j], other) by {
        match envelope.signal_type {
            VescTrampaSignalType::VescTrampaBoardConnect => {
                if j < boards.len() {
                    assert(!entry_of(boards[j], other));
                }
            },
            VescTrampaSignalType::VescTrampaBoardDisconnect => {
                boards.lemma_filter_contains_rev(
                    |e: BoardStateView| !entry_of(e, board),
                    after[j],
                );
                let k = choose|k: int| 0 <= k < boards.len() && boards[k] == after[j];
                assert(!entry_of(boards[k], other));
            },
            _ => {
                assert(after[j].board == boards[j].board);
                assert(!entry_of(boards[j], other));
            },
        }
    }
}

/// A board is known exactly if the last record that said so said that it is connected. Records
/// on other boards have no say in it.
pub proof fn law_the_connected_boards_are_known(records: Seq<PlacedRecord>, board: BoardView)
    ensures
        unknown(state_after_all(records).boards, board) == !connected(records, board),
    decreases records.len(),
{
    law_a_board_is_known_by_its_entry(state_after_all(records).boards, board);
    if records.len() > 0 {
        let r = records.last();
        let before = state_after_all(records.drop_last()).boards;
        let after = state_after_all(records).boards;
        law_the_connected_boards_are_known(records.drop_last(), board);
        law_a_board_is_known_by_its_entry(before, board);
        if r.envelope.board is Some {
            let b = r.envelope.board->0;
            law_reached_boards_are_distinct(records.drop_last());
            if same(b, board) {
                lemma_same_knows(before, b, board);
                lemma_same_knows(after, b, board);
                match r.envelope.signal_type {
                    VescTrampaSignalType::VescTrampaBoardConnect => {
                        law_connected_board_is_known(before, b, r.envelope);
                    },
                    VescTrampaSignalType::VescTrampaBoardDisconnect => {
                        law_disconnected_board_is_unknown(before, b);
                    },
                    _ => {
                        if knows(before, b) {
                            lemma_known_has_first(before, b);
                            lemma_first_stays(before, after, b);
                        } else {
                            lemma_stays_unknown(before, b, r.envelope, r.pointer, board);
                        }
                    },
                }
            } else if knows(before, board) {
                law_entry_of_another_board_is_kept(before, b, r.envelope, r.pointer, board);
            } else {
                lemma_stays_unknown(before, b, r.envelope, r.pointer, board);
            }
        }
    }
}

/// Whether the k-th record reports on a command to this board that succeeded.
pub open spec fn succeeded(records: Seq<PlacedRecord>, board: BoardView, k: int) -> bool {
    &&& 0 <= k < records.len()
    &&& is_on(records[k], board)
    &&& records[k].envelope.signal_type is VescTrampaCommandSuccess
    &&& records[k].envelope.command is Some
}

/// Whether the k-th record is the last that had a say in the mode of this board, and told it to
/// hold: the board was connected, and it did not disconnect since, nor did a command for the
/// board itself succeed since.
pub open spec fn told_to_hold(records: Seq<PlacedRecord>, board: BoardView, k: int) -> bool {
    &&& succeeded(records, board, k)
    &&& records[k].envelope.command->0.board_commands == 0
    &&& records[k].envelope.command->0.motor_mode == Some(VescTrampaMotorMode::Hold)
    &&& connected(records.take(k), board)
    &&& forall|j: int|
        k < j < records.len() && is_on(#[trigger] records[j], board) ==> {
            &&& !(records[j].envelope.signal_type is VescTrampaBoardDisconnect)
            &&& succeeded(records, board, j) ==> records[j].envelope.command->0.board_commands
                == 0
        }
}

/// In every state that records lead to, a board's mode is a hold exactly if a successful command
/// told that very board to hold since it connected, and none for the board itself succeeded
/// since. Otherwise it is unspecified, whatever other boards were told.
pub proof fn law_a_board_holds_if_it_was_told_to(records: Seq<PlacedRecord>, board: BoardView)
    requires
        connected(records, board),
    ensures
        knows(state_after_all(records).boards, board),
        entry(state_after_all(records).boards, board).motor_mode == if exists|k: int|
            told_to_hold(records, board, k) {
            VescTrampaMotorMode::Hold
        } else {
            VescTrampaMotorMode::Unspecified
        },
    decreases records.len(),
{
    let front = records.drop_last();
    let r = records.last();
    let n = records.len() - 1;
    let before = state_after_all(front).boards;
    let after = state_after_all(records).boards;
    law_the_connected_boards_are_known(records, board);
    law_the_connected_boards_are_known(front, board);
    law_a_board_is_known_by_its_entry(after, board);
    law_a_board_is_known_by_its_entry(before, board);
    law_reached_boards_are_distinct(front);
    law_reached_boards_are_distinct(records);
    assert(records.take(n) =~= front);
    // What had a say earlier has one now, unless the last record takes it away.
    assert forall|k: int| 0 <= k < n implies #[trigger] records.take(k) == front.take(k) by {
        assert(records.take(k) =~= front.take(k));
    }
    let resets = is_on(r, board) && (r.envelope.signal_type is VescTrampaBoardDisconnect || (
    succeeded(records, board, n) && r.envelope.command->0.board_commands > 0));
    assert forall|k: int| 0 <= k < n implies told_to_hold(records, board, k) == (told_to_hold(
        front,
        board,
        k,
    ) && !resets) by {
        assert(records.take(k) == front.take(k));
        assert(front[k] == records[k]);
        if told_to_hold(records, board, k) {
            assert forall|j: int| k < j < front.len() && is_on(
                #[trigger] front[j],
                board,
            ) implies !(front[j].envelope.signal_type is VescTrampaBoardDisconnect) && (
            succeeded(front, board, j) ==> front[j].envelope.command->0.board_commands == 0) by {
                assert(is_on(records[j], board));
                assert(succeeded(front, board, j) == succeeded(records, board, j));
            }
            assert(records[n] == r);
        }
        if told_to_hold(front, board, k) && !resets {
            assert forall|j: int| k < j < records.len() && is_on(
                #[trigger] records[j],
                board,
            ) implies !(records[j].envelope.signal_type is VescTrampaBoardDisconnect) && (
            succeeded(records, board, j) ==> records[j].envelope.command->0.board_commands
                == 0) by {
                if j < n {
                    assert(is_on(front[j], board));
                    assert(succeeded(front, board, j) == succeeded(records, board, j));
                }
            }
        }
    }
    let was_held = exists|k: int| told_to_hold(front, board, k);
    let is_held = exists|k: int| told_to_hold(records, board, k);
    let holds_now = told_to_hold(records, board, n);
    assert(is_held == ((was_held && !resets) || holds_now)) by {
        if was_held && !resets {
            let k = choose|k: int| told_to_hold(front, board, k);
            assert(told_to_hold(records, board, k));
        }
        if is_held {
            let k = choose|k: int| told_to_hold(records, board, k);
            if k < n {
                assert(told_to_hold(front, board, k));
            }
        }
    }
    if connected(front, board) {
        law_a_board_holds_if_it_was_told_to(front, board);
        if is_on(r, board) {
            let b = r.envelope.board->0;
            lemma_same_knows(before, b, board);
            lemma_same_knows(after, b, board);
            lemma_same_entry(before, board, b);
            lemma_same_entry(after, board, b);
            if r.envelope.signal_type is VescTrampaCommandSuccess {
                if r.envelope.command is Some {
                    law_mode_after_success(before, b, r.envelope, r.pointer);
                }
            } else {
                law_mode_changes_only_by_success(before, b, r.envelope, r.pointer, board);
            }
        } else if r.envelope.board is Some {
            law_entry_of_another_board_is_kept(
                before,
                r.envelope.board->0,
                r.envelope,
                r.pointer,
                board,
            );
        }
    } else {
        let b = r.envelope.board->0;
        lemma_same_knows(before, b, board);
        lemma_only_entry(after, board, before.len() as int);
        assert(!was_held) by {
            if was_held {
                let k = choose|k: int| told_to_hold(front, board, k);
                lemma_stays_connected(front, board, k);
            }
        }
    }
}

/// A board that was connected when it was told to hold, and did not disconnect since, is
/// connected.
proof fn lemma_stays_connected(records: Seq<PlacedRecord>, board: BoardView, k: int)
    requires
        told_to_hold(records, board, k),
    ensures
        connected(records, board),
    decreases records.len(),
{
    let front = records.drop_last();
    let n = records.len() - 1;
    if k == n {
        assert(records.take(n) =~= front);
        assert(records[n] == records.last());
    } else {
        assert(records.take(k) =~= front.take(k));
        assert(front[k] == records[k]);
        assert(told_to_hold(front, board, k)) by {
            assert forall|j: int| k < j < front.len() && is_on(
                #[trigger] front[j],
                board,
            ) implies !(front[j].envelope.signal_type is VescTrampaBoardDisconnect) && (
            succeeded(front, board, j) ==> front[j].envelope.command->0.board_commands == 0) by {
                assert(is_on(records[j], board));
                assert(succeeded(front, board, j) == succeeded(records, board, j));
            }
        }
        lemma_stays_connected(front, board, k);
        assert(records[n] == records.last());
    }
}

// The messages and their views.

/// The view of a record holds each of its parts.
pub proof fn law_the_view_of_a_record(envelope: RxEnvelope)
    ensures
        envelope@.signal_type == envelope.signal_type,
        envelope@.monotonic_stamp_ns == envelope.monotonic_stamp_ns,
        envelope@.local_stamp_ns == envelope.local_stamp_ns,
        envelope@.app_start_id == envelope.app_start_id,
        envelope.board is None <==> envelope@.board is None,
        envelope.board matches Some(b) ==> envelope@.board->0.uuid == octets(b.uuid)
            && envelope@.board->0.port_name == b.port_name@ && envelope@.board->0.detail
            == octets(b.detail),
        envelope.board_packet is None <==> envelope@.board_packet is None,
        envelope.board_packet matches Some(p) ==> envelope@.board_packet->0.command_id
            == p.command_id && envelope@.board_packet->0.payload == octets(p.payload),
        envelope.command is None <==> envelope@.command is None,
        envelope.command matches Some(c) ==> envelope@.command->0.board_commands
            == c.board_commands && envelope@.command->0.motor_mode == c.motor_mode,
{
}

/// The view of the state holds each part of each entry, in their order.
pub proof fn law_the_view_of_the_state(state: InferenceState)
    ensures
        state@.last_inference_queue_ptr == octets(state.last_inference_queue_ptr),
        state@.boards.len() == state.boards@.len(),
        forall|i: int|
            0 <= i < state.boards@.len() ==> {
                let e = #[trigger] state@.boards[i];
                let s = state.boards@[i];
                &&& e.motor_mode == s.motor_mode
                &&& e.monotonic_stamp_ns == s.monotonic_stamp_ns
                &&& e.local_stamp_ns == s.local_stamp_ns
                &&& e.app_start_id == s.app_start_id
                &&& e.values_payload == octets(s.values_payload)
                &&& e.values_rx_pointer == octets(s.values_rx_pointer)
                &&& e.values_monotonic_stamp_ns == s.values_monotonic_stamp_ns
                &&& e.values_local_stamp_ns == s.values_local_stamp_ns
                &&& e.values_app_start_id == s.values_app_start_id
                &&& s.board is None <==> e.board is None
                &&& s.board matches Some(b) ==> e.board->0.uuid == octets(b.uuid)
                    && e.board->0.port_name == b.port_name@ && e.board->0.detail == octets(
                    b.detail,
                )
            },
{
}

// What is known, and what the producer of a record hears.

/// A record that was not placed leaves what is known untouched. One that was placed is followed
/// under the bytes of its own number.
pub proof fn law_only_what_was_placed_is_followed(
    known: StateView,
    envelope: EnvelopeView,
    reply: Reply,
    last: Option<UintN>,
)
    ensures
        !(reply is Placed) ==> known_after(known, envelope, reply, last) == known,
        reply matches Reply::Placed(ptr) ==> known_after(known, envelope, reply, last)
            == state_after(
            known,
            envelope,
            number_octets(ptr),
            match last {
                Some(id) => number_octets(id),
                None => Seq::empty(),
            },
        ),
{
}

/// The producer of a record hears that a snapshot with the record's own policy is due exactly if
/// the record was placed. One that may be skipped and found the queue full is no error, and
/// nothing is due. Any other refusal reaches it as the queue gave it, and a wait that took too
/// long as a timeout.
pub proof fn law_a_snapshot_follows_what_was_placed(
    policy: Backpressure,
    reply: Reply,
    res: Result<Due, WriteError>,
)
    requires
        told_of_rx(policy, reply, res),
    ensures
        reply is Placed <==> res == Ok::<Due, WriteError>(Some(policy)),
        res == Ok::<Due, WriteError>(None) <==> (policy is Skip && reply == Reply::Refused(
            WriteError::WouldBlock,
        )),
        reply matches Reply::Refused(e) ==> res is Ok || res == Err::<Due, WriteError>(e),
        reply is Elapsed ==> {
            &&& res matches Err(WriteError::Io { kind, text })
            &&& kind is TimedOut
            &&& text@ == "no page became free in time"@
        },
{
}

/// The last inference record is looked up exactly for the records that the state names it with:
/// for any other, the state does not depend on it.
pub proof fn law_the_lookup_is_for_what_names_it(
    state: StateView,
    envelope: EnvelopeView,
    ptr: UintN,
    pointer: Seq<u8>,
    last: Seq<u8>,
    other: Seq<u8>,
)
    ensures
        takes_last(envelope, Reply::Placed(ptr)) ==> state_after(
            state,
            envelope,
            pointer,
            last,
        ).last_inference_queue_ptr == last,
        !takes_last(envelope, Reply::Placed(ptr)) ==> state_after(state, envelope, pointer, last)
            == state_after(state, envelope, pointer, other),
        forall|reply: Reply| takes_last(envelope, reply) ==> reply is Placed,
{
}

} // verus!
