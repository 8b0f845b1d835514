//! Bit-width-constrained numeric wrappers and the domain aliases built on
//! them: register indices and memory addresses.

use vstd::prelude::*;

verus! {

/// A value occupying 4 bits: register indices and small immediates.
#[derive(Clone, Copy, Debug, PartialEq, Eq, Structural)]
pub struct FourBitValue(pub u8);

/// A value occupying 8 bits: byte immediates and register contents.
#[derive(Clone, Copy, Debug, PartialEq, Eq, Structural)]
pub struct EightBitValue(pub u8);

/// A value occupying 12 bits: addresses and long immediates.
#[derive(Clone, Copy, Debug, PartialEq, Eq, Structural)]
pub struct TwelveBitValue(pub u16);

/// Index of one of the 16 general-purpose registers.
#[derive(Clone, Copy, Debug, PartialEq, Eq, Structural)]
pub struct RegisterNumber(pub FourBitValue);

/// An address into the 4096-cell memory.
#[derive(Clone, Copy, Debug, PartialEq, Eq, Structural)]
pub struct MemoryAddress(pub TwelveBitValue);

impl FourBitValue {
    /// The raw value fits in 4 bits.
    pub open spec fn wf(self) -> bool {
        self.0 <= 0xF
    }
}

impl TwelveBitValue {
    /// The raw value fits in 12 bits.
    pub open spec fn wf(self) -> bool {
        self.0 <= 0xFFF
    }
}

impl RegisterNumber {
    pub open spec fn wf(self) -> bool {
        self.0.wf()
    }

    /// The register index as a mathematical integer.
    pub open spec fn index(self) -> int {
        self.0.0 as int
    }

    /// The index of register V0.
    pub fn zero() -> (r: Self)
        ensures
            r == (RegisterNumber(FourBitValue(0))),
    {
        RegisterNumber(FourBitValue(0))
    }

    /// The register index, widened losslessly for use as a slot number.
    pub fn as_usize(self) -> (r: usize)
        ensures
            r == self.index(),
    {
        self.0.0 as usize
    }
}

impl MemoryAddress {
    pub open spec fn wf(self) -> bool {
        self.0.wf()
    }

    /// The address as a mathematical integer.
    pub open spec fn index(self) -> int {
        self.0.0 as int
    }

    /// The address, widened losslessly for use as a memory offset.
    pub fn as_usize(self) -> (r: usize)
        ensures
            r == self.index(),
    {
        self.0.0 as usize
    }

    /// The address, widened losslessly to 16 bits.
    pub fn as_u16(self) -> (r: u16)
        ensures
            r == self.0.0,
    {
        self.0.0
    }
}

} // verus!
