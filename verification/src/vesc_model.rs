//! The messages of the VESC Trampa driver and the state inferred from them, with their views.
use bytes::Bytes;
use vstd::prelude::*;

use crate::octets::octets;

verus! {

/// How a record's envelope says what it is about. `Other` holds any further number.
#[derive(Clone, Copy, Debug, PartialEq, Eq, Structural)]
pub enum VescTrampaSignalType {
    VescTrampaBoardConnect,
    VescTrampaBoardDisconnect,
    VescTrampaBoardPacket,
    VescTrampaCommand,
    VescTrampaCommandSuccess,
    Other(i32),
}

/// What a board's motor was last told to do, as far as the state follows it. `Other` holds
/// any further number.
#[derive(Clone, Copy, Debug, PartialEq, Eq, Structural)]
pub enum VescTrampaMotorMode {
    Unspecified,
    Hold,
    Other(i32),
}

/// Which request a packet of a board answers. `Other` holds any further number.
#[derive(Clone, Copy, Debug, PartialEq, Eq, Structural)]
pub enum VescCommandId {
    GetValues,
    Other(u32),
}

/// A board, as it names itself and as the port names it.
pub struct VescTrampaBoard {
    /// Empty until the board has told it.
    pub uuid: Bytes,
    pub port_name: String,
    /// What else the board says of itself, encoded: carried, never read.
    pub detail: Bytes,
}

pub struct BoardPacket {
    pub command_id: VescCommandId,
    pub payload: Bytes,
}

/// The command that a record reports on.
pub struct BoardCommand {
    /// How many commands it holds for the board itself.
    pub board_commands: usize,
    /// The motor mode it asks for, if it asks for one.
    pub motor_mode: Option<VescTrampaMotorMode>,
}

/// One record of the rx queue.
pub struct RxEnvelope {
    pub signal_type: VescTrampaSignalType,
    pub board: Option<VescTrampaBoard>,
    pub board_packet: Option<BoardPacket>,
    pub command: Option<BoardCommand>,
    pub monotonic_stamp_ns: u64,
    pub local_stamp_ns: u64,
    pub app_start_id: u64,
}

/// What is known of one connected board.
pub struct BoardState {
    pub board: Option<VescTrampaBoard>,
    pub motor_mode: VescTrampaMotorMode,
    pub monotonic_stamp_ns: u64,
    pub local_stamp_ns: u64,
    pub app_start_id: u64,
    pub values_payload: Bytes,
    /// Names the rx record that the values came from.
    pub values_rx_pointer: Bytes,
    pub values_monotonic_stamp_ns: u64,
    pub values_local_stamp_ns: u64,
    pub values_app_start_id: u64,
}

/// What is known of all connected boards.
pub struct InferenceState {
    pub boards: Vec<BoardState>,
    pub last_inference_queue_ptr: Bytes,
}

#[verifier::ext_equal]
pub struct BoardView {
    pub uuid: Seq<u8>,
    pub port_name: Seq<char>,
    pub detail: Seq<u8>,
}

#[verifier::ext_equal]
pub struct PacketView {
    pub command_id: VescCommandId,
    pub payload: Seq<u8>,
}

#[verifier::ext_equal]
pub struct CommandView {
    pub board_commands: nat,
    pub motor_mode: Option<VescTrampaMotorMode>,
}

#[verifier::ext_equal]
pub struct EnvelopeView {
    pub signal_type: VescTrampaSignalType,
    pub board: Option<BoardView>,
    pub board_packet: Option<PacketView>,
    pub command: Option<CommandView>,
    pub monotonic_stamp_ns: u64,
    pub local_stamp_ns: u64,
    pub app_start_id: u64,
}

#[verifier::ext_equal]
pub struct BoardStateView {
    pub board: Option<BoardView>,
    pub motor_mode: VescTrampaMotorMode,
    pub monotonic_stamp_ns: u64,
    pub local_stamp_ns: u64,
    pub app_start_id: u64,
    pub values_payload: Seq<u8>,
    pub values_rx_pointer: Seq<u8>,
    pub values_monotonic_stamp_ns: u64,
    pub values_local_stamp_ns: u64,
    pub values_app_start_id: u64,
}

#[verifier::ext_equal]
pub struct StateView {
    pub boards: Seq<BoardStateView>,
    pub last_inference_queue_ptr: Seq<u8>,
}

impl View for VescTrampaBoard {
    type V = BoardView;

    open spec fn view(&self) -> BoardView {
        BoardView {
            uuid: octets(self.uuid),
            port_name: self.port_name@,
            detail: octets(self.detail),
        }
    }
}

impl View for BoardPacket {
    type V = PacketView;

    open spec fn view(&self) -> PacketView {
        PacketView { command_id: self.command_id, payload: octets(self.payload) }
    }
}

impl View for BoardCommand {
    type V = CommandView;

    open spec fn view(&self) -> CommandView {
        CommandView { board_commands: self.board_commands as nat, motor_mode: self.motor_mode }
    }
}

/// The view of what an option holds.
pub open spec fn viewed<T: View>(o: Option<T>) -> Option<T::V> {
    match o {
        Some(t) => Some(t@),
        None => None,
    }
}

impl View for RxEnvelope {
    type V = EnvelopeView;

    open spec fn view(&self) -> EnvelopeView {
        EnvelopeView {
            signal_type: self.signal_type,
            board: viewed(self.board),
            board_packet: viewed(self.board_packet),
            command: viewed(self.command),
            monotonic_stamp_ns: self.monotonic_stamp_ns,
            local_stamp_ns: self.local_stamp_ns,
            app_start_id: self.app_start_id,
        }
    }
}

impl View for BoardState {
    type V = BoardStateView;

    open spec fn view(&self) -> BoardStateView {
        BoardStateView {
            board: viewed(self.board),
            motor_mode: self.motor_mode,
            monotonic_stamp_ns: self.monotonic_stamp_ns,
            local_stamp_ns: self.local_stamp_ns,
            app_start_id: self.app_start_id,
            values_payload: octets(self.values_payload),
            values_rx_pointer: octets(self.values_rx_pointer),
            values_monotonic_stamp_ns: self.values_monotonic_stamp_ns,
            values_local_stamp_ns: self.values_local_stamp_ns,
            values_app_start_id: self.values_app_start_id,
        }
    }
}

/// What is known of each of the boards, in their order.
pub open spec fn board_views(boards: Seq<BoardState>) -> Seq<BoardStateView> {
    Seq::new(boards.len(), |i: int| boards[i]@)
}

impl View for InferenceState {
    type V = StateView;

    open spec fn view(&self) -> StateView {
        StateView {
            boards: board_views(self.boards@),
            last_inference_queue_ptr: octets(self.last_inference_queue_ptr),
        }
    }
}

impl VescTrampaBoard {
    /// A second copy of the board.
    pub fn copied(&self) -> (r: VescTrampaBoard)
        ensures
            r@ == self@,
    {
        VescTrampaBoard {
            uuid: self.uuid.clone(),
            port_name: self.port_name.clone(),
            detail: self.detail.clone(),
        }
    }
}

} // verus!
