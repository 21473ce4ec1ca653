//! Configuration register writes over the acknowledged channel.
use vstd::prelude::*;

verus! {

/// A configuration register address: 16-bit index and 8-bit sub-index.
#[derive(Clone, Copy, Debug, PartialEq, Eq, Structural)]
pub struct Register {
    pub index: u16,
    pub subindex: u8,
}

/// A typed register value. A 32-bit float is carried as its IEEE 754 bit
/// pattern.
#[derive(Clone, Copy, Debug, PartialEq, Eq, Structural)]
pub enum SdoValue {
    U8(u8),
    U16(u16),
    U32(u32),
    F32(u32),
}

/// One register write.
#[derive(Clone, Copy, Debug, PartialEq, Eq, Structural)]
pub struct SdoWrite {
    pub register: Register,
    pub value: SdoValue,
}

/// The write of `value` to register `index:subindex`.
pub open spec fn write_of(index: u16, subindex: u8, value: SdoValue) -> SdoWrite {
    SdoWrite { register: Register { index, subindex }, value }
}

/// Builds the write of `value` to register `index:subindex`.
pub fn sdo_write(index: u16, subindex: u8, value: SdoValue) -> (w: SdoWrite)
    ensures
        w == write_of(index, subindex, value),
{
    SdoWrite { register: Register { index, subindex }, value }
}

/// A value whose type fixes the register it is stored in.
pub trait Index {
    const INDEX: u16;
    const SUBINDEX: u8;

    /// The register value that this value is written as.
    spec fn spec_sdo_value(&self) -> SdoValue;

    fn sdo_value(&self) -> (r: SdoValue)
        ensures
            r == self.spec_sdo_value(),
    ;
}

/// The write that stores `value` at its type's register.
pub fn sdo_write_value_index<T: Index>(value: &T) -> (w: SdoWrite)
    ensures
        w == write_of(T::INDEX, T::SUBINDEX, value.spec_sdo_value()),
{
    sdo_write(T::INDEX, T::SUBINDEX, value.sdo_value())
}

} // verus!
