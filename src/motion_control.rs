//! The motion state machine.
pub mod state;
