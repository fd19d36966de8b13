//! Transport and protocol core of a vehicle diagnostic stack.
//!
//! * [channel] - capability traits for moving bytes or frames to and from an ECU,
//!   the CAN frame and ISO-TP settings value types, and ownership adapters
//! * [diag] - errors of the diagnostic command layer
//! * [hardware] - errors reported by hardware backends
//! * [uds] - UDS command execution and response interpretation, with ECU reset
//!   as the worked service

pub mod channel;
pub mod diag;
pub mod hardware;
pub mod uds;

pub use diag::{DiagError, DiagServerResult};
