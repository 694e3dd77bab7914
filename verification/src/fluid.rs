//! Working fluid selection and the legacy layouts it can be read from.

pub mod ideal_gas;

pub use ideal_gas::Name;

use vstd::prelude::*;

verus! {

/// The working fluid a configuration can choose, together with the
/// property model used for it.
#[derive(Debug, Clone, Copy, PartialEq, Eq, Structural)]
pub enum Config {
    Hydrogen(ModelConfig),
    Helium(ModelConfig),
}

/// The property models available for a working fluid.
#[derive(Debug, Clone, Copy, PartialEq, Eq, Structural)]
pub enum ModelConfig {
    Custom,
    Fit,
    IdealGas,
    RefProp,
}

/// The fluid choice in the layout used by earlier front ends.
#[derive(Debug, Clone, Copy, PartialEq, Eq, Structural)]
pub enum LegacyConfig {
    Hydrogen,
    RealGasRefprop(LegacyRefPropParams),
    IdealGas(LegacyIdealGasParams),
}

/// Parameters of the legacy real-gas model.
#[derive(Debug, Clone, Copy, PartialEq, Eq, Structural)]
pub struct LegacyRefPropParams {
    pub name: LegacyFluidOption,
}

/// Parameters of the legacy ideal-gas model.
#[derive(Debug, Clone, Copy, PartialEq, Eq, Structural)]
pub struct LegacyIdealGasParams {
    pub name: LegacyFluidOption,
}

/// The fluids that the legacy layouts can name.
#[derive(Debug, Clone, Copy, PartialEq, Eq, Structural)]
pub enum LegacyFluidOption {
    Hydrogen,
    Helium,
}

impl LegacyConfig {
    /// The current-layout configuration a legacy one stands for.
    ///
    /// A bare legacy `Hydrogen` names the custom hydrogen model; the two
    /// parameterized variants carry the fluid name and pick the matching
    /// model.
    pub open spec fn spec_into(self) -> Config {
        match self {
            LegacyConfig::Hydrogen => Config::Hydrogen(ModelConfig::Custom),
            LegacyConfig::RealGasRefprop(params) => match params.name {
                LegacyFluidOption::Hydrogen => Config::Hydrogen(ModelConfig::RefProp),
                LegacyFluidOption::Helium => Config::Helium(ModelConfig::RefProp),
            },
            LegacyConfig::IdealGas(params) => match params.name {
                LegacyFluidOption::Hydrogen => Config::Hydrogen(ModelConfig::IdealGas),
                LegacyFluidOption::Helium => Config::Helium(ModelConfig::IdealGas),
            },
        }
    }

    /// Convert a legacy fluid configuration.
    pub fn into(self) -> (r: Config)
        ensures
            r == self.spec_into(),
    {
        match self {
            LegacyConfig::Hydrogen => Config::Hydrogen(ModelConfig::Custom),
            LegacyConfig::RealGasRefprop(params) => match params.name {
                LegacyFluidOption::Hydrogen => Config::Hydrogen(ModelConfig::RefProp),
                LegacyFluidOption::Helium => Config::Helium(ModelConfig::RefProp),
            },
            LegacyConfig::IdealGas(params) => match params.name {
                LegacyFluidOption::Hydrogen => Config::Hydrogen(ModelConfig::IdealGas),
                LegacyFluidOption::Helium => Config::Helium(ModelConfig::IdealGas),
            },
        }
    }
}

} // verus!
