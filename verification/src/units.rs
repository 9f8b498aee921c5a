//! Energy units and the conversions between them.
//!
//! Three units exist: `Joule` and `Calorie` are wrapper types around a
//! non-negative integer magnitude, while `BTU` is a bare integer alias.
//! BTU is the common intermediate unit: every unit can be converted to BTU
//! (truncating integer division) and constructed from BTU (multiplication).

use vstd::prelude::*;

verus! {

/// An energy magnitude expressed in Joule.
#[derive(Eq, PartialEq, Debug, Clone, Copy)]
pub struct Joule(pub u32);

/// An energy magnitude expressed in Calorie.
#[derive(Eq, PartialEq, Debug, Clone, Copy)]
pub struct Calorie(pub u32);

/// An energy magnitude expressed in British Thermal Units, the common
/// intermediate unit of this crate.
pub type BTU = u32;

/// How many Joule one BTU is worth.
pub const JOULE_PER_BTU: u32 = 1055;

/// How many Calorie one BTU is worth.
pub const CALORIE_PER_BTU: u32 = 251;

/// An energy unit: a value that can be read off in BTU (losing the remainder
/// of the division) and built from a BTU magnitude (exactly, when it fits).
pub trait EnergyUnit: Sized + Copy {
    /// The magnitude of this value expressed in BTU, truncating.
    spec fn btu_value(self) -> u32;

    /// Whether a BTU magnitude `b` can be represented in this unit without
    /// overflowing its `u32` backing store.
    spec fn btu_fits(b: int) -> bool;

    /// The value of this unit that represents exactly `b` BTU: the stored
    /// magnitude is `b` times the unit's BTU worth.
    spec fn from_btu_spec(b: int) -> Self;

    /// Convert this value to BTU; the remainder of the division is lost.
    fn into_btu(self) -> (r: BTU)
        ensures
            r == self.btu_value(),
    ;

    /// Build the value of this unit that represents exactly `b` BTU. The
    /// conversion back to BTU is exact: multiplying first and dividing after
    /// loses nothing.
    fn from_btu(b: BTU) -> (r: Self)
        requires
            Self::btu_fits(b as int),
        ensures
            r == Self::from_btu_spec(b as int),
            r.btu_value() == b,
    ;
}

impl EnergyUnit for Joule {
    open spec fn btu_value(self) -> u32 {
        self.0 / JOULE_PER_BTU
    }

    open spec fn btu_fits(b: int) -> bool {
        b * JOULE_PER_BTU <= u32::MAX
    }

    open spec fn from_btu_spec(b: int) -> Joule {
        Joule((b * JOULE_PER_BTU) as u32)
    }

    fn into_btu(self) -> BTU {
        self.0 / JOULE_PER_BTU
    }

    fn from_btu(b: BTU) -> Joule {
        Joule(b * JOULE_PER_BTU)
    }
}

impl EnergyUnit for Calorie {
    open spec fn btu_value(self) -> u32 {
        self.0 / CALORIE_PER_BTU
    }

    open spec fn btu_fits(b: int) -> bool {
        b * CALORIE_PER_BTU <= u32::MAX
    }

    open spec fn from_btu_spec(b: int) -> Calorie {
        Calorie((b * CALORIE_PER_BTU) as u32)
    }

    fn into_btu(self) -> BTU {
        self.0 / CALORIE_PER_BTU
    }

    fn from_btu(b: BTU) -> Calorie {
        Calorie(b * CALORIE_PER_BTU)
    }
}

impl EnergyUnit for BTU {
    open spec fn btu_value(self) -> u32 {
        self
    }

    open spec fn btu_fits(b: int) -> bool {
        0 <= b <= u32::MAX
    }

    open spec fn from_btu_spec(b: int) -> BTU {
        b as u32
    }

    fn into_btu(self) -> BTU {
        self
    }

    fn from_btu(b: BTU) -> BTU {
        b
    }
}

} // verus!
