//! Working-space drive components and their configuration.

pub mod gpu3;
pub mod mod2;
pub mod rhombic_drive;
pub mod sinusoidal_drive;

pub use gpu3::GPU3;
pub use mod2::Mod2;
pub use rhombic_drive::RhombicDrive;
pub use sinusoidal_drive::SinusoidalDrive;

use vstd::prelude::*;

use crate::engine::state::Pressure;
use crate::types::ParasiticPower;

verus! {

/// Compression space volume (m^3) and its derivative (m^3/s).
#[derive(Debug, Clone, Copy)]
pub struct CompVolume<T> {
    pub value: T,
    pub deriv: T,
}

/// Expansion space volume (m^3) and its derivative (m^3/s).
#[derive(Debug, Clone, Copy)]
pub struct ExpVolume<T> {
    pub value: T,
    pub deriv: T,
}

/// Thermal resistance between the gas and the associated heat exchanger
/// temperature.
///
/// Thermal resistances have units K/W.  An adiabatic space is modeled by
/// an infinite resistance, which is the usual assumption for both the
/// compression and expansion spaces.
#[derive(Debug, Clone, Copy)]
pub struct ThermalResistance<T> {
    pub comp: T,
    pub exp: T,
}

/// Parasitic power (W) related to the two working spaces.
#[derive(Debug, Clone, Copy)]
pub struct Parasitics<T> {
    pub comp: ParasiticPower<T>,
    pub exp: ParasiticPower<T>,
}

/// Information available to a working spaces component for calculating
/// its parameters.
#[derive(Debug, Clone, Copy)]
pub struct State<T> {
    pub pres: Pressure<T>,
}

/// The working-space drive models a configuration can choose from.
#[derive(Debug, Clone, Copy)]
pub enum WorkingSpacesConfig<T> {
    Sinusoidal(sinusoidal_drive::SinusoidalDriveConfig<T>),
    Rhombic(rhombic_drive::Config<T>),
    GPU3(gpu3::Config<T>),
    Mod2(mod2::Config<T>),
}

} // verus!
