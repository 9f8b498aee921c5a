use energy::Calorie;
use energy::EnergyUnit;
use energy::Fuel;
use energy::Joule;

#[test]
fn joule_to_btu_truncates() {
    assert_eq!(Joule(2110).into_btu(), 2);
    assert_eq!(Joule(2109).into_btu(), 1);
    assert_eq!(Joule(1054).into_btu(), 0);
}

#[test]
fn btu_to_joule_is_exact() {
    assert_eq!(Joule::from_btu(3), Joule(3165));
    assert_eq!(Joule::from_btu(3).into_btu(), 3);
    assert_eq!(Joule::from_btu(0), Joule(0));
}

#[test]
fn calorie_to_btu_truncates() {
    assert_eq!(Calorie(502).into_btu(), 2);
    assert_eq!(Calorie(501).into_btu(), 1);
    assert_eq!(Calorie(250).into_btu(), 0);
}

#[test]
fn btu_to_calorie_is_exact() {
    assert_eq!(Calorie::from_btu(4), Calorie(1004));
    assert_eq!(Calorie::from_btu(4).into_btu(), 4);
}

#[test]
fn btu_is_its_own_unit() {
    let b: u32 = 17;
    assert_eq!(b.into_btu(), 17);
    assert_eq!(<u32 as EnergyUnit>::from_btu(17), 17);
}

#[test]
fn base_densities() {
    assert_eq!(energy::Diesel::energy_density(), Joule(105500));
    assert_eq!(energy::Uranium::energy_density(), Joule(1055000));
    assert_eq!(energy::LithiumBattery::energy_density(), Calorie(50200));
}
