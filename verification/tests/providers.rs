use std::marker::PhantomData;

use energy::BritishEngine;
use energy::CustomMixed;
use energy::Diesel;
use energy::EnergyUnit;
use energy::Fuel;
use energy::FuelContainer;
use energy::GreenEngine;
use energy::InternalCombustion;
use energy::LithiumBattery;
use energy::Mixed;
use energy::NuclearReactor;
use energy::OmniGenerator;
use energy::ProvideEnergy;
use energy::Uranium;

#[test]
fn efficiency_formula_exact_value() {
    // floor(7 * 100 * 33 / 100) = 231 for Diesel at 33%.
    let nr = NuclearReactor;
    assert_eq!(
        nr.provide_energy_with_efficiency(FuelContainer::<Diesel>::new(7), 33).into_btu(),
        231
    );
    // An efficiency of 0 yields nothing.
    assert_eq!(
        nr.provide_energy_with_efficiency(FuelContainer::<Diesel>::new(7), 0).into_btu(),
        0
    );
}

#[test]
fn efficiency_saturates_at_100() {
    let nr = NuclearReactor;
    let at_150 = nr.provide_energy_with_efficiency(FuelContainer::<Uranium>::new(10), 150);
    let at_100 = nr.provide_energy_with_efficiency(FuelContainer::<Uranium>::new(10), 100);
    assert_eq!(at_150, at_100);
    assert_eq!(at_150.into_btu(), 10000);
}

#[test]
fn ideal_conversion_is_exact() {
    let nr = NuclearReactor;
    assert_eq!(
        nr.provide_energy_ideal(FuelContainer::<Diesel>::new(7)).into_btu(),
        700
    );
    assert_eq!(
        nr.provide_energy_ideal(FuelContainer::<LithiumBattery>::new(0)).into_btu(),
        0
    );
}

#[test]
fn empty_container_yields_nothing() {
    let mut nr = NuclearReactor;
    assert_eq!(
        nr.provide_energy(FuelContainer::<Uranium>::new(0)).into_btu(),
        0
    );
}

#[test]
fn ic_new_clamps_initial_efficiency() {
    let ic = InternalCombustion::<3>::new(250);
    assert_eq!(ic.efficiency, 100);
    let ic = InternalCombustion::<3>::new(40);
    assert_eq!(ic.efficiency, 40);
}

#[test]
fn ic_decays_every_single_call_with_decay_one() {
    let mut ic = InternalCombustion::<1>::new(50);
    // First call: counter goes to 1, no decay yet.
    assert_eq!(
        ic.provide_energy(FuelContainer::<Diesel>::new(10)).into_btu(),
        500
    );
    // Second call: counter exceeds 1, resets, efficiency drops to 49.
    assert_eq!(
        ic.provide_energy(FuelContainer::<Diesel>::new(10)).into_btu(),
        490
    );
    // Third call: counter goes to 1 again, no decay.
    assert_eq!(
        ic.provide_energy(FuelContainer::<Diesel>::new(10)).into_btu(),
        490
    );
    assert_eq!(ic.efficiency, 49);
    assert_eq!(ic.count, 1);
}

#[test]
fn low_efficiency_allows_large_amounts() {
    // The ideal product 30,000,000 BTU is not representable in Joule, but at
    // 10% the computation stays in range throughout.
    let nr = NuclearReactor;
    assert_eq!(
        nr.provide_energy_with_efficiency(FuelContainer::<Diesel>::new(300000), 10).into_btu(),
        3000000
    );
}

#[test]
fn omni_saturates_above_100() {
    let mut og = OmniGenerator::<200>;
    assert_eq!(
        og.provide_energy(FuelContainer::<Diesel>::new(10)).into_btu(),
        1000
    );
}

#[test]
fn omni_80() {
    let mut og = OmniGenerator::<80>;
    assert_eq!(
        og.provide_energy(FuelContainer::<Diesel>::new(10)).into_btu(),
        800
    );
    // 80% of the even Diesel/LithiumBattery mix (density 150): 120 per unit.
    assert_eq!(energy::omni_80_energy(10), 1200);
    assert_eq!(energy::omni_80_energy(0), 0);
}

#[test]
fn custom_mixed_weights_each_term() {
    // 100 * 33 / 100 + 200 * 67 / 100 = 33 + 134 = 167.
    assert_eq!(
        CustomMixed::<33, Diesel, LithiumBattery>::energy_density().into_btu(),
        167
    );
    // Taking only the first fuel, or only the second.
    assert_eq!(
        CustomMixed::<100, Diesel, LithiumBattery>::energy_density().into_btu(),
        100
    );
    assert_eq!(
        CustomMixed::<0, Diesel, LithiumBattery>::energy_density().into_btu(),
        200
    );
}

#[test]
fn custom_mixed_truncates_per_term() {
    // The blend of the 33/67 blend with itself: each half of the even mix is
    // truncated on its own, so one BTU is lost against the plain average.
    type Odd = CustomMixed<33, Diesel, LithiumBattery>;
    assert_eq!(Mixed::<Odd, Odd>::energy_density().into_btu(), 167);
    assert_eq!(CustomMixed::<50, Odd, Odd>::energy_density().into_btu(), 166);
}

#[test]
fn composites_compose() {
    // Mixed<Mixed<Diesel, LithiumBattery>, Uranium>: (150 + 1000) / 2 = 575.
    type Inner = Mixed<Diesel, LithiumBattery>;
    assert_eq!(Mixed::<Inner, Uranium>::energy_density().into_btu(), 575);
    let mut og = OmniGenerator::<100>;
    assert_eq!(
        og.provide_energy(FuelContainer::<Mixed<Inner, Uranium>>::new(2)).into_btu(),
        1150
    );
}

#[test]
fn green_engine_is_ideal() {
    let mut gre = GreenEngine::<LithiumBattery>(PhantomData::<LithiumBattery>);
    assert_eq!(
        gre.provide_energy(FuelContainer::<LithiumBattery>::new(7)).into_btu(),
        1400
    );
}

#[test]
fn british_engine_takes_custom_blends() {
    let mut bri = BritishEngine::<CustomMixed<25, Diesel, Uranium>>(PhantomData::<
        CustomMixed<25, Diesel, Uranium>,
    >);
    // 100 * 25 / 100 + 1000 * 75 / 100 = 25 + 750 = 775.
    assert_eq!(
        bri.provide_energy(FuelContainer::<CustomMixed<25, Diesel, Uranium>>::new(10)).into_btu(),
        7750
    );
}
