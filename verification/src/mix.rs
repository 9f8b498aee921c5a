//! Composite fuel kinds: blends of two fuels, normalized to BTU.
//!
//! A composite is itself a `Fuel`, so it can feed any provider, including
//! further composites.

use core::marker::PhantomData;
use vstd::prelude::*;

use crate::fuel::Fuel;
use crate::units::EnergyUnit;
use crate::units::BTU;

verus! {

/// A fuel kind that mixes two fuel types evenly.
///
/// Its output unit is always BTU, and its density is the average of the two
/// constituent densities once converted to BTU, with the division
/// truncating.
pub struct Mixed<F1: Fuel, F2: Fuel>(pub PhantomData<(F1, F2)>);

impl<F1: Fuel, F2: Fuel> Fuel for Mixed<F1, F2> {
    type Output = BTU;

    open spec fn density_ok() -> bool {
        F1::density_ok() && F2::density_ok()
    }

    open spec fn density_btu() -> u32 {
        ((F1::density_btu() + F2::density_btu()) / 2) as u32
    }

    fn energy_density() -> BTU {
        let d1: u32 = F1::energy_density().into_btu();
        let d2: u32 = F2::energy_density().into_btu();
        let sum: u64 = d1 as u64 + d2 as u64;
        (sum / 2) as u32
    }
}

/// A fuel kind that mixes two fuel types at a configured ratio: the blend
/// takes `C` percent of the first fuel's density and `100 - C` percent of
/// the second's, so `C` must be at most 100.
///
/// Its output unit is always BTU. Each weighted term is truncated on its
/// own before the two are summed: the division happens after the
/// multiplication per term, not after the full weighted sum.
pub struct CustomMixed<const C: u8, F1, F2>(pub PhantomData<(F1, F2)>);

impl<const C: u8, F1: Fuel, F2: Fuel> Fuel for CustomMixed<C, F1, F2> {
    type Output = BTU;

    open spec fn density_ok() -> bool {
        C <= 100 && F1::density_ok() && F2::density_ok()
    }

    open spec fn density_btu() -> u32 {
        (F1::density_btu() * C / 100 + F2::density_btu() * (100 - C as int) / 100) as u32
    }

    fn energy_density() -> BTU {
        let d1: u32 = F1::energy_density().into_btu();
        let d2: u32 = F2::energy_density().into_btu();
        proof {
            assert(d1 * C <= u32::MAX * 100) by (nonlinear_arith)
                requires
                    0 <= d1 <= u32::MAX,
                    0 <= C <= 100,
            ;
            assert(d2 * (100 - C as int) <= u32::MAX * 100) by (nonlinear_arith)
                requires
                    0 <= d2 <= u32::MAX,
                    0 <= C <= 100,
            ;
        }
        let t1: u64 = d1 as u64 * C as u64 / 100;
        let t2: u64 = d2 as u64 * (100 - C as u64) / 100;
        proof {
            let larger: int = if d1 >= d2 {
                d1 as int
            } else {
                d2 as int
            };
            assert(100 * (t1 + t2) <= d1 * C + d2 * (100 - C as int));
            assert(d1 * C + d2 * (100 - C as int) <= 100 * larger) by (nonlinear_arith)
                requires
                    d1 <= larger,
                    d2 <= larger,
                    0 <= C <= 100,
            ;
        }
        (t1 + t2) as u32
    }
}

} // verus!
