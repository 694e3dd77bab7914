//! Hot heat exchanger components and their configuration.

pub mod fixed_approach;
pub mod fixed_conductance;
pub mod gpu3;
pub mod mod2;
pub mod ni_gpu3;
pub mod ni_mod2;

pub use fixed_approach::FixedApproach;
pub use fixed_conductance::FixedConductance;
pub use gpu3::GPU3;
pub use mod2::Mod2;
pub use ni_gpu3::NuclearIsomerGPU3;
pub use ni_mod2::NuclearIsomerMod2;

use vstd::prelude::*;

use crate::types::HeatExchanger;

verus! {

/// Information available to a hot heat exchanger component for
/// calculating its parameters.
#[derive(Debug, Clone, Copy)]
pub struct State<T> {
    pub hxr: HeatExchanger<T>,
    pub source_temp: T,
}

/// The hot heat exchanger models a configuration can choose from.
#[derive(Debug, Clone, Copy)]
pub enum Config<T> {
    FixedApproach(fixed_approach::Config<T>),
    FixedConductance(fixed_conductance::Config<T>),
    GPU3(gpu3::Config<T>),
    Mod2(mod2::Config<T>),
    GPU3NI(ni_gpu3::Config<T>),
    Mod2NI(ni_mod2::Config),
}

/// The same choice of models in the layout used by earlier front ends.
#[derive(Debug, Clone, Copy)]
pub enum LegacyConfig<T> {
    FixedApproach(fixed_approach::Config<T>),
    FixedConductance(fixed_conductance::Config<T>),
    GPU3(gpu3::Config<T>),
    Mod2(mod2::Config<T>),
    GPU3NI(ni_gpu3::Config<T>),
    Mod2NI(ni_mod2::Config),
}

impl<T: Copy> LegacyConfig<T> {
    /// The current-layout configuration a legacy one stands for: the same
    /// model with the same parameters.
    pub open spec fn spec_into(self) -> Config<T> {
        match self {
            LegacyConfig::FixedApproach(params) => Config::FixedApproach(params),
            LegacyConfig::FixedConductance(params) => Config::FixedConductance(params),
            LegacyConfig::GPU3(params) => Config::GPU3(params),
            LegacyConfig::Mod2(params) => Config::Mod2(params),
            LegacyConfig::GPU3NI(params) => Config::GPU3NI(params),
            LegacyConfig::Mod2NI(params) => Config::Mod2NI(params),
        }
    }

    /// Convert a legacy configuration, keeping model and parameters.
    pub fn into(self) -> (r: Config<T>)
        ensures
            r == self.spec_into(),
    {
        match self {
            LegacyConfig::FixedApproach(params) => Config::FixedApproach(params),
            LegacyConfig::FixedConductance(params) => Config::FixedConductance(params),
            LegacyConfig::GPU3(params) => Config::GPU3(params),
            LegacyConfig::Mod2(params) => Config::Mod2(params),
            LegacyConfig::GPU3NI(params) => Config::GPU3NI(params),
            LegacyConfig::Mod2NI(params) => Config::Mod2NI(params),
        }
    }
}

} // verus!
