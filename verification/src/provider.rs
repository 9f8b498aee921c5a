//! Energy providers: anything that consumes a container of fuel and returns
//! the energy it yields, in the fuel's native output unit.
//!
//! A provider applies an efficiency percentage `e` to the ideal conversion
//! `amount * density`. Efficiencies saturate at 100: any input above 100 is
//! treated as 100. The arithmetic runs in BTU and the result is converted
//! back to the output unit, so a call yields
//! `floor(amount * density_btu * e / 100)` BTU.

use core::marker::PhantomData;
use vstd::prelude::*;

use crate::fuel::Diesel;
use crate::fuel::Fuel;
use crate::fuel::FuelContainer;
use crate::fuel::IsRenewable;
use crate::fuel::LithiumBattery;
use crate::mix::Mixed;
use crate::units::EnergyUnit;
use crate::units::BTU;

verus! {

/// An efficiency percentage, saturated at 100.
pub open spec fn clamp_percent(e: int) -> int {
    if e > 100 {
        100
    } else {
        e
    }
}

/// The energy, in BTU, that `amount` units of a fuel of density `density`
/// (in BTU) yield at efficiency `e`: the ideal conversion `amount * density`
/// scaled by the saturated percentage, with the division truncating.
pub open spec fn converted_energy(amount: int, density: int, e: int) -> int {
    amount * density * clamp_percent(e) / 100
}

/// Something that can provide energy from a given `F` fuel type, like a
/// power plant.
///
/// Each implementor describes itself with four spec functions: whether its
/// state admits a call at all (`call_ok`), the machine bounds its own
/// computation needs (`call_requires`), the efficiency the next call will
/// apply (`call_efficiency`), and the state it leaves behind (`stepped`).
/// The contract of `provide_energy` is then the same for every provider:
/// the result is exactly the output unit's representation of
/// `converted_energy` at the declared efficiency, and the state steps as
/// declared.
pub trait ProvideEnergy<F: Fuel>: Sized {
    /// Whether the provider's state admits a call. Stateless providers admit
    /// every call; a decaying provider must not underflow its efficiency.
    spec fn call_ok(self) -> bool;

    /// The machine bounds a call needs: every intermediate `u32` product of
    /// this provider's computation stays in range, and the resulting energy
    /// is representable in the output unit. A provider demands no more than
    /// its own efficiency makes it compute.
    spec fn call_requires(self, f: FuelContainer<F>) -> bool;

    /// The efficiency percentage the next call will apply, after any decay
    /// due on that call.
    spec fn call_efficiency(self) -> u32;

    /// The provider's state after one call.
    spec fn stepped(self) -> Self;

    /// Consume the fuel container and return the created energy, based on
    /// the energy density of the fuel and the provider's own efficiency.
    fn provide_energy(&mut self, f: FuelContainer<F>) -> (r: F::Output)
        requires
            old(self).call_ok(),
            F::density_ok(),
            old(self).call_requires(f),
        ensures
            *final(self) == old(self).stepped(),
            r == F::Output::from_btu_spec(converted_energy(
                f.amount as int,
                F::density_btu() as int,
                old(self).call_efficiency() as int,
            )),
            r.btu_value() == converted_energy(
                f.amount as int,
                F::density_btu() as int,
                old(self).call_efficiency() as int,
            ),
    ;

    /// Convert the amount of fuel in `f` with an efficiency of `e`.
    ///
    /// Efficiencies are percentages of at most 100: any value above 100 is
    /// treated as 100, that is, the efficiency saturates at 100%.
    fn provide_energy_with_efficiency(&self, f: FuelContainer<F>, e: u8) -> (r: F::Output)
        requires
            F::density_ok(),
            f.amount * F::density_btu() <= u32::MAX,
            f.amount * F::density_btu() * clamp_percent(e as int) <= u32::MAX,
            F::Output::btu_fits(
                converted_energy(f.amount as int, F::density_btu() as int, e as int),
            ),
        ensures
            r == F::Output::from_btu_spec(
                converted_energy(f.amount as int, F::density_btu() as int, e as int),
            ),
            r.btu_value() == converted_energy(f.amount as int, F::density_btu() as int, e as int),
    {
        let real_e: u8 = if e > 100 {
            100
        } else {
            e
        };
        let density: u32 = F::energy_density().into_btu();
        let ideal: u32 = f.amount * density;
        let scaled: u32 = ideal * (real_e as u32);
        let energy: u32 = scaled / 100;
        F::Output::from_btu(energy)
    }

    /// Convert the amount of fuel in `f` with the ideal efficiency of 100%:
    /// the result is exactly `amount * density`.
    fn provide_energy_ideal(&self, f: FuelContainer<F>) -> (r: F::Output)
        requires
            F::density_ok(),
            f.amount * F::density_btu() <= u32::MAX,
            F::Output::btu_fits(f.amount * F::density_btu()),
        ensures
            r == F::Output::from_btu_spec(f.amount * F::density_btu()),
            r.btu_value() == f.amount * F::density_btu(),
    {
        let energy: u32 = f.amount * F::energy_density().into_btu();
        F::Output::from_btu(energy)
    }
}

/// A nuclear reactor: stateless, accepts any fuel kind, and provides energy
/// with a fixed efficiency of 99%.
pub struct NuclearReactor;

impl<F: Fuel> ProvideEnergy<F> for NuclearReactor {
    open spec fn call_ok(self) -> bool {
        true
    }

    open spec fn call_requires(self, f: FuelContainer<F>) -> bool {
        &&& f.amount * F::density_btu() <= u32::MAX
        &&& f.amount * F::density_btu() * 99 <= u32::MAX
        &&& F::Output::btu_fits(converted_energy(f.amount as int, F::density_btu() as int, 99))
    }

    open spec fn call_efficiency(self) -> u32 {
        99
    }

    open spec fn stepped(self) -> Self {
        self
    }

    fn provide_energy(&mut self, f: FuelContainer<F>) -> F::Output {
        self.provide_energy_with_efficiency(f, 99)
    }
}

/// A combustion engine, meant to burn `Diesel`.
///
/// It is stateful: it is built with an initial efficiency (clamped to at
/// most 100) and a call counter, and the efficiency drops by one each time
/// the counter exceeds `DECAY` — that is, once every `DECAY + 1` calls of
/// `provide_energy`. On each call the counter is incremented first; once it
/// exceeds `DECAY` it is reset to 0 and the stored efficiency is
/// decremented, and the call then converts at the possibly just-decremented
/// efficiency.
pub struct InternalCombustion<const DECAY: u32> {
    /// The efficiency the next call applies, before any decay due then.
    pub efficiency: u8,
    /// How many calls have happened since the last decay.
    pub count: u32,
}

impl<const DECAY: u32> InternalCombustion<DECAY> {
    /// The efficiency a call on this state applies: the stored efficiency,
    /// less one if the call's increment pushes the counter past `DECAY`.
    pub open spec fn next_efficiency(self) -> u32 {
        if self.count + 1 > DECAY {
            (self.efficiency - 1) as u32
        } else {
            self.efficiency as u32
        }
    }

    pub fn new(efficiency: u8) -> (r: Self)
        ensures
            r.efficiency == clamp_percent(efficiency as int),
            r.count == 0,
    {
        InternalCombustion {
            efficiency: if efficiency > 100 {
                100
            } else {
                efficiency
            },
            count: 0,
        }
    }
}

impl<const DECAY: u32, F: Fuel> ProvideEnergy<F> for InternalCombustion<DECAY> {
    /// The efficiency must not underflow when a decay is due, and the
    /// counter must not overflow. Instances built by `new` and stepped only
    /// by `provide_energy` keep `efficiency <= 100` and `count <= DECAY`.
    open spec fn call_ok(self) -> bool {
        &&& self.efficiency <= 100
        &&& self.count < u32::MAX
        &&& self.count + 1 > DECAY ==> self.efficiency >= 1
    }

    open spec fn call_requires(self, f: FuelContainer<F>) -> bool {
        &&& f.amount * F::density_btu() <= u32::MAX
        &&& f.amount * F::density_btu() * self.next_efficiency() <= u32::MAX
        &&& F::Output::btu_fits(
            converted_energy(f.amount as int, F::density_btu() as int, self.next_efficiency() as int),
        )
    }

    open spec fn call_efficiency(self) -> u32 {
        self.next_efficiency()
    }

    open spec fn stepped(self) -> Self {
        if self.count + 1 > DECAY {
            InternalCombustion { efficiency: (self.efficiency - 1) as u8, count: 0 }
        } else {
            InternalCombustion { efficiency: self.efficiency, count: (self.count + 1) as u32 }
        }
    }

    fn provide_energy(&mut self, f: FuelContainer<F>) -> F::Output {
        self.count = self.count + 1;
        if self.count > DECAY {
            self.count = 0;
            self.efficiency = self.efficiency - 1;
        }
        let e: u8 = self.efficiency;
        self.provide_energy_with_efficiency(f, e)
    }
}

/// A hypothetical device that, unlike `InternalCombustion`, can consume any
/// fuel kind. It provides a fixed efficiency regardless of the fuel type;
/// as everywhere, the percentage saturates at 100.
pub struct OmniGenerator<const EFFICIENCY: u8>;

impl<const EFFICIENCY: u8, F: Fuel> ProvideEnergy<F> for OmniGenerator<EFFICIENCY> {
    open spec fn call_ok(self) -> bool {
        true
    }

    open spec fn call_requires(self, f: FuelContainer<F>) -> bool {
        &&& f.amount * F::density_btu() <= u32::MAX
        &&& f.amount * F::density_btu() * clamp_percent(EFFICIENCY as int) <= u32::MAX
        &&& F::Output::btu_fits(
            converted_energy(f.amount as int, F::density_btu() as int, EFFICIENCY as int),
        )
    }

    open spec fn call_efficiency(self) -> u32 {
        clamp_percent(EFFICIENCY as int) as u32
    }

    open spec fn stepped(self) -> Self {
        self
    }

    fn provide_energy(&mut self, f: FuelContainer<F>) -> F::Output {
        self.provide_energy_with_efficiency(f, EFFICIENCY)
    }
}

/// An engine that only provides energy from fuel kinds that are
/// `IsRenewable`. It has perfect efficiency.
pub struct GreenEngine<F: Fuel + IsRenewable>(pub PhantomData<F>);

impl<F: Fuel + IsRenewable> ProvideEnergy<F> for GreenEngine<F> {
    open spec fn call_ok(self) -> bool {
        true
    }

    open spec fn call_requires(self, f: FuelContainer<F>) -> bool {
        &&& f.amount * F::density_btu() <= u32::MAX
        &&& F::Output::btu_fits(f.amount * F::density_btu())
    }

    open spec fn call_efficiency(self) -> u32 {
        100
    }

    open spec fn stepped(self) -> Self {
        self
    }

    fn provide_energy(&mut self, f: FuelContainer<F>) -> F::Output {
        proof {
            assert(f.amount * F::density_btu() * 100 / 100 == f.amount * F::density_btu());
        }
        self.provide_energy_ideal(f)
    }
}

/// An engine that only provides energy from fuel kinds whose output unit is
/// `BTU`. It has perfect efficiency.
pub struct BritishEngine<F: Fuel>(pub PhantomData<F>);

impl<F: Fuel<Output = BTU>> ProvideEnergy<F> for BritishEngine<F> {
    open spec fn call_ok(self) -> bool {
        true
    }

    open spec fn call_requires(self, f: FuelContainer<F>) -> bool {
        &&& f.amount * F::density_btu() <= u32::MAX
        &&& F::Output::btu_fits(f.amount * F::density_btu())
    }

    open spec fn call_efficiency(self) -> u32 {
        100
    }

    open spec fn stepped(self) -> Self {
        self
    }

    fn provide_energy(&mut self, f: FuelContainer<F>) -> F::Output {
        proof {
            assert(f.amount * F::density_btu() * 100 / 100 == f.amount * F::density_btu());
        }
        self.provide_energy_ideal(f)
    }
}

/// The energy produced by an `OmniGenerator` with an efficiency of 80% when
/// the fuel is an even mix of `Diesel` and `LithiumBattery`: that mix has a
/// density of 150 BTU, so the yield is `amount * 150 * 80 / 100`, that is,
/// 120 BTU per unit of fuel.
pub fn omni_80_energy(amount: u32) -> (r: BTU)
    requires
        amount * 150 * 80 <= u32::MAX,
    ensures
        r == amount * 120,
{
    let mut generator = OmniGenerator::<80>;
    let r = generator.provide_energy(FuelContainer::<Mixed<Diesel, LithiumBattery>>::new(amount));
    proof {
        assert(r == amount * 150 * 80 / 100);
        assert(amount * 150 * 80 / 100 == amount * 120) by (nonlinear_arith);
    }
    r
}

} // verus!
