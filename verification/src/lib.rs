//! A small verified model of energy sources ("fuels"), the energy units
//! Joule, Calorie and BTU with their lossy integer conversions, and energy
//! providers (engines, reactors) that turn a quantity of fuel into energy at
//! a configurable, saturating efficiency.

pub mod fuel;
pub mod laws;
pub mod mix;
pub mod provider;
pub mod units;

pub use fuel::Diesel;
pub use fuel::Fuel;
pub use fuel::FuelContainer;
pub use fuel::IsRenewable;
pub use fuel::LithiumBattery;
pub use fuel::Uranium;
pub use mix::CustomMixed;
pub use mix::Mixed;
pub use provider::omni_80_energy;
pub use provider::BritishEngine;
pub use provider::GreenEngine;
pub use provider::InternalCombustion;
pub use provider::NuclearReactor;
pub use provider::OmniGenerator;
pub use provider::ProvideEnergy;
pub use units::Calorie;
pub use units::EnergyUnit;
pub use units::Joule;
pub use units::BTU;
