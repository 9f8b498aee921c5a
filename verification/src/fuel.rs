//! Fuel kinds and the container that holds a quantity of one of them.
//!
//! A fuel kind is a zero-sized marker type: all of its state is the fixed
//! energy density it declares, expressed in a kind-specific output unit.

use core::marker::PhantomData;
use vstd::prelude::*;

use crate::units::EnergyUnit;
use crate::units::Joule;
use crate::units::Calorie;

verus! {

/// A technology for storing energy for later consumption.
///
/// A fuel kind declares its native output unit and a fixed energy density:
/// the amount of energy contained in a single unit of fuel, expressed in
/// that output unit.
pub trait Fuel {
    /// The output unit of the energy density.
    type Output: EnergyUnit;

    /// Whether the density of this kind is well defined. It is unconditional
    /// for the base kinds; a composite kind constrains its blend ratio and
    /// inherits the condition of its constituents.
    spec fn density_ok() -> bool;

    /// The energy density of this kind, expressed in BTU.
    spec fn density_btu() -> u32;

    /// The amount of energy contained in a single unit of fuel, in the
    /// kind's native output unit: exactly the representation of
    /// `density_btu` BTU in that unit.
    fn energy_density() -> (r: Self::Output)
        requires
            Self::density_ok(),
        ensures
            r == Self::Output::from_btu_spec(Self::density_btu() as int),
            r.btu_value() == Self::density_btu(),
    ;
}

/// A fossil fuel with a density of 100 BTU, stored as Joule.
pub struct Diesel;

impl Fuel for Diesel {
    type Output = Joule;

    open spec fn density_ok() -> bool {
        true
    }

    open spec fn density_btu() -> u32 {
        100
    }

    fn energy_density() -> Joule {
        Joule::from_btu(100)
    }
}

/// A rechargeable store with a density of 200 BTU, stored as Calorie.
pub struct LithiumBattery;

impl Fuel for LithiumBattery {
    type Output = Calorie;

    open spec fn density_ok() -> bool {
        true
    }

    open spec fn density_btu() -> u32 {
        200
    }

    fn energy_density() -> Calorie {
        Calorie::from_btu(200)
    }
}

/// A fissile fuel with a density of 1000 BTU, stored as Joule.
pub struct Uranium;

impl Fuel for Uranium {
    type Output = Joule;

    open spec fn density_ok() -> bool {
        true
    }

    open spec fn density_btu() -> u32 {
        1000
    }

    fn energy_density() -> Joule {
        Joule::from_btu(1000)
    }
}

/// A fuel kind that regenerates and may feed a `GreenEngine`.
pub trait IsRenewable {
}

impl IsRenewable for LithiumBattery {
}

/// A container for any fuel type: an inert quantity of fuel, tagged with its
/// kind at construction and immutable once built.
pub struct FuelContainer<F: Fuel> {
    /// The amount of fuel.
    pub amount: u32,
    /// `Fuel` has no methods taking `&self`: everything a provider needs
    /// comes from `F` as a type, so no instance of `F` is stored.
    pub _marker: PhantomData<F>,
}

impl<F: Fuel> FuelContainer<F> {
    pub fn new(amount: u32) -> (r: Self)
        ensures
            r.amount == amount,
    {
        FuelContainer { amount, _marker: PhantomData }
    }
}

} // verus!
