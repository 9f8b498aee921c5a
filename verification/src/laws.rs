//! General laws of the conversion formula and of the composite densities.

use vstd::prelude::*;

use crate::fuel::Fuel;
use crate::mix::CustomMixed;
use crate::mix::Mixed;
use crate::provider::converted_energy;

verus! {

/// For every valid amount, density and efficiency of at most 100, the
/// converted energy is exactly `floor(amount * density * e / 100)`.
pub proof fn lemma_conversion_formula(amount: int, density: int, e: int)
    requires
        0 <= e <= 100,
    ensures
        converted_energy(amount, density, e) == amount * density * e / 100,
{
}

/// Saturation: an efficiency above 100 yields the same energy as an
/// efficiency of exactly 100.
pub proof fn lemma_efficiency_saturates(amount: int, density: int, e: int)
    requires
        e >= 100,
    ensures
        converted_energy(amount, density, e) == converted_energy(amount, density, 100),
{
}

/// The ideal conversion is exact: at efficiency 100 the converted energy is
/// `amount * density`, with no truncation loss beyond the unit conversions
/// already applied to the density.
pub proof fn lemma_ideal_conversion_is_exact(amount: int, density: int)
    requires
        0 <= amount,
        0 <= density,
    ensures
        converted_energy(amount, density, 100) == amount * density,
{
    assert(amount * density * 100 / 100 == amount * density) by (nonlinear_arith)
        requires
            0 <= amount,
            0 <= density,
    ;
}

/// A symmetric 50/50 custom blend has the same density as the plain even
/// mix, as long as at least one of the two densities is even; when both are
/// odd, the custom blend loses one BTU to its per-term truncation.
pub proof fn lemma_even_custom_blend_matches_mix<F1: Fuel, F2: Fuel>()
    requires
        F1::density_btu() % 2 == 0 || F2::density_btu() % 2 == 0,
    ensures
        CustomMixed::<50, F1, F2>::density_btu() == Mixed::<F1, F2>::density_btu(),
{
    let d1: int = F1::density_btu() as int;
    let d2: int = F2::density_btu() as int;
    assert(d1 * 50 / 100 == d1 / 2) by (nonlinear_arith);
    assert(d2 * 50 / 100 == d2 / 2) by (nonlinear_arith);
    assert(d1 % 2 == 0 || d2 % 2 == 0 ==> d1 / 2 + d2 / 2 == (d1 + d2) / 2);
}

} // verus!
