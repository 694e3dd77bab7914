//! Cold heat exchanger components and their configuration.

pub mod fixed_approach;
pub mod fixed_conductance;
pub mod gpu3;
pub mod mod2;

pub use fixed_approach::FixedApproach;
pub use fixed_conductance::FixedConductance;
pub use gpu3::GPU3;
pub use mod2::Mod2;

use vstd::prelude::*;

use crate::types::HeatExchanger;

verus! {

/// Information available to a cold heat exchanger component for
/// calculating its parameters.
#[derive(Debug, Clone, Copy)]
pub struct State<T> {
    pub hxr: HeatExchanger<T>,
    pub sink_temp: T,
}

/// The cold heat exchanger models a configuration can choose from.
#[derive(Debug, Clone, Copy)]
pub enum Config<T> {
    FixedApproach(fixed_approach::Config<T>),
    FixedConductance(fixed_conductance::Config<T>),
    GPU3(gpu3::Config<T>),
    Mod2(mod2::Config<T>),
}

} // verus!
