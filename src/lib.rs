//! Drivers and bus engine for terminals on a cyclic fieldbus.
//!
//! The library holds the decisions: which registers each terminal is
//! programmed with, how process data is laid out bit by bit, how the
//! load-cell calibration handshake proceeds, and how the bus engine brings
//! terminals up and paces its ticks. The caller performs the frame exchange
//! and register accesses that these decisions ask for.
use vstd::prelude::*;

pub mod bits;
pub mod codec;
pub mod sdo;
pub mod text;
pub mod calibration;
pub mod devices;
pub mod engine;
pub mod operations;
pub mod registry;

verus! {

} // verus!
