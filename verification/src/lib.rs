//! Queues of a station under back-pressure, and what its drivers keep of what went through
//! them.
//!
//! A producer that can wait offers its records one by one, see [`backpressure`]. One that cannot
//! hands them to a writer task through a bounded channel, see [`writer`] and [`task`]; what gets
//! lost is counted and told, see [`losses`]. [`vesc_communicator`] follows what the records of
//! the VESC Trampa driver say of its boards, and [`main_queue`] says which queues there are.
//!
//! What holds of all of this, whatever happens, is stated in [`writer_laws`] and [`vesc_laws`].
//! [`octets`], [`ids`], [`channel`] and [`tally`] hold what is assumed of code outside.

pub mod backpressure;
pub mod channel;
pub mod ids;
pub mod losses;
pub mod main_queue;
pub mod octets;
pub mod tally;
pub mod task;
pub mod vesc_communicator;
pub mod vesc_laws;
pub mod vesc_model;
pub mod vesc_state;
pub mod writer;
pub mod writer_laws;

pub use backpressure::{Backpressure, STARTUP_WRITE_TIMEOUT, WRITE_TIMEOUT};
pub use main_queue::MainQueue;
pub use vesc_communicator::VescTrampaCommunicator;
pub use writer::QueueWriter;
