//! What every terminal driver shares: its identity, its errors, and the
//! driver for terminals that have none of their own.
use crate::sdo::SdoWrite;
use vstd::prelude::*;

verus! {

/// The identity under which a terminal enumerates on the bus.
pub trait DeviceInfo {
    const VENDOR_ID: u32;
    const PRODUCT_ID: u32;
    const NAME: &'static str;
}

/// Why a terminal's cyclic exchange failed.
#[derive(Clone, Copy, Debug, PartialEq, Eq, Structural)]
pub enum DeviceError {
    /// A process data buffer's length disagrees with the terminal's layout.
    LengthMismatch { expected: usize, actual: usize },
    /// The terminal's description is malformed.
    ConfigurationError,
}

/// The outcome of one cyclic exchange of a terminal.
pub struct Exchange {
    /// New output bytes, when the terminal writes its output this tick.
    pub output: Option<Vec<u8>>,
    /// Channel values to publish, in channel order.
    pub channels: Vec<bool>,
}

/// The next value of a cycle counter, wrapping to zero at the end of its
/// range.
pub open spec fn next_count(c: u64) -> u64 {
    if c == u64::MAX {
        0
    } else {
        (c + 1) as u64
    }
}

pub fn count_up(c: u64) -> (r: u64)
    ensures
        r == next_count(c),
{
    if c == u64::MAX {
        0
    } else {
        c + 1
    }
}

/// The driver of a terminal that the library does not know: it programs
/// nothing and exchanges nothing.
#[derive(Clone, Copy, Debug, PartialEq, Eq, Structural)]
pub struct UnimplementedDevice;

impl UnimplementedDevice {
    /// No register is written.
    pub fn setup(&self) -> (w: Vec<SdoWrite>)
        ensures
            w@.len() == 0,
    {
        Vec::new()
    }

    /// Leaves the output alone and publishes nothing.
    pub fn process_data(&mut self, input: &[u8]) -> (r: Result<Exchange, DeviceError>)
        ensures
            r matches Ok(e) && e.output is None && e.channels@.len() == 0,
    {
        Ok(Exchange { output: None, channels: Vec::new() })
    }
}

} // verus!
