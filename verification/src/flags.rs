//! Bit-flag metadata attached to the descriptors.
//!
//! Input flags name the price-bundle components a function reads; optional-
//! parameter flags carry unit or presentation hints; output flags are
//! advisory rendering roles. The engine consumes only input flags; the rest
//! travel with the catalog for downstream consumers.

use vstd::prelude::*;

verus! {

/// Capability flags of an input descriptor: which components of a price
/// bundle the function reads.
#[derive(Clone, Copy, Debug, PartialEq, Eq, Structural, Hash)]
pub struct InputFlags {
    pub bits: u32,
}

impl InputFlags {
    pub fn empty() -> (r: Self)
        ensures
            r.bits == 0,
    {
        InputFlags { bits: 0 }
    }

    pub fn open() -> (r: Self)
        ensures
            r.bits == 0x1u32,
    {
        InputFlags { bits: 0x1 }
    }

    pub fn high() -> (r: Self)
        ensures
            r.bits == 0x2u32,
    {
        InputFlags { bits: 0x2 }
    }

    pub fn low() -> (r: Self)
        ensures
            r.bits == 0x4u32,
    {
        InputFlags { bits: 0x4 }
    }

    pub fn close() -> (r: Self)
        ensures
            r.bits == 0x8u32,
    {
        InputFlags { bits: 0x8 }
    }

    pub fn volume() -> (r: Self)
        ensures
            r.bits == 0x10u32,
    {
        InputFlags { bits: 0x10 }
    }

    pub fn open_interest() -> (r: Self)
        ensures
            r.bits == 0x20u32,
    {
        InputFlags { bits: 0x20 }
    }

    pub fn timestamp() -> (r: Self)
        ensures
            r.bits == 0x40u32,
    {
        InputFlags { bits: 0x40 }
    }

    /// The union of two flag sets.
    pub fn union(self, other: Self) -> (r: Self)
        ensures
            r.bits == self.bits | other.bits,
    {
        InputFlags { bits: self.bits | other.bits }
    }

    /// Whether every flag of `other` is set in `self`.
    pub fn contains(self, other: Self) -> (r: bool)
        ensures
            r == (self.bits & other.bits == other.bits),
    {
        self.bits & other.bits == other.bits
    }
}

/// Unit and presentation hints of an optional-parameter descriptor.
#[derive(Clone, Copy, Debug, PartialEq, Eq, Structural, Hash)]
pub struct OptInputFlags {
    pub bits: u32,
}

impl OptInputFlags {
    pub fn empty() -> (r: Self)
        ensures
            r.bits == 0,
    {
        OptInputFlags { bits: 0 }
    }

    pub fn percent() -> (r: Self)
        ensures
            r.bits == 0x100000u32,
    {
        OptInputFlags { bits: 0x100000 }
    }

    pub fn degree() -> (r: Self)
        ensures
            r.bits == 0x200000u32,
    {
        OptInputFlags { bits: 0x200000 }
    }

    pub fn currency() -> (r: Self)
        ensures
            r.bits == 0x400000u32,
    {
        OptInputFlags { bits: 0x400000 }
    }

    pub fn advanced() -> (r: Self)
        ensures
            r.bits == 0x1000000u32,
    {
        OptInputFlags { bits: 0x1000000 }
    }

    pub fn union(self, other: Self) -> (r: Self)
        ensures
            r.bits == self.bits | other.bits,
    {
        OptInputFlags { bits: self.bits | other.bits }
    }

    pub fn contains(self, other: Self) -> (r: bool)
        ensures
            r == (self.bits & other.bits == other.bits),
    {
        self.bits & other.bits == other.bits
    }
}

/// Advisory rendering roles of an output descriptor. The call engine never
/// consumes these.
#[derive(Clone, Copy, Debug, PartialEq, Eq, Structural, Hash)]
pub struct OutputFlags {
    pub bits: u32,
}

impl OutputFlags {
    pub fn empty() -> (r: Self)
        ensures
            r.bits == 0,
    {
        OutputFlags { bits: 0 }
    }

    pub fn line() -> (r: Self)
        ensures
            r.bits == 0x1u32,
    {
        OutputFlags { bits: 0x1 }
    }

    pub fn dot_line() -> (r: Self)
        ensures
            r.bits == 0x2u32,
    {
        OutputFlags { bits: 0x2 }
    }

    pub fn dash_line() -> (r: Self)
        ensures
            r.bits == 0x4u32,
    {
        OutputFlags { bits: 0x4 }
    }

    pub fn dot() -> (r: Self)
        ensures
            r.bits == 0x8u32,
    {
        OutputFlags { bits: 0x8 }
    }

    pub fn histogram() -> (r: Self)
        ensures
            r.bits == 0x10u32,
    {
        OutputFlags { bits: 0x10 }
    }

    pub fn pattern_bool() -> (r: Self)
        ensures
            r.bits == 0x20u32,
    {
        OutputFlags { bits: 0x20 }
    }

    pub fn pattern_bull_bear() -> (r: Self)
        ensures
            r.bits == 0x40u32,
    {
        OutputFlags { bits: 0x40 }
    }

    pub fn pattern_strength() -> (r: Self)
        ensures
            r.bits == 0x80u32,
    {
        OutputFlags { bits: 0x80 }
    }

    pub fn positive() -> (r: Self)
        ensures
            r.bits == 0x100u32,
    {
        OutputFlags { bits: 0x100 }
    }

    pub fn negative() -> (r: Self)
        ensures
            r.bits == 0x200u32,
    {
        OutputFlags { bits: 0x200 }
    }

    pub fn zero() -> (r: Self)
        ensures
            r.bits == 0x400u32,
    {
        OutputFlags { bits: 0x400 }
    }

    pub fn upper_limit() -> (r: Self)
        ensures
            r.bits == 0x800u32,
    {
        OutputFlags { bits: 0x800 }
    }

    pub fn lower_limit() -> (r: Self)
        ensures
            r.bits == 0x1000u32,
    {
        OutputFlags { bits: 0x1000 }
    }

    pub fn union(self, other: Self) -> (r: Self)
        ensures
            r.bits == self.bits | other.bits,
    {
        OutputFlags { bits: self.bits | other.bits }
    }

    pub fn contains(self, other: Self) -> (r: bool)
        ensures
            r == (self.bits & other.bits == other.bits),
    {
        self.bits & other.bits == other.bits
    }
}

} // verus!
