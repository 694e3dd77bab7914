//! Engine-level assembly: the configured fluid and components, and the
//! state that the outer thermal-balance loop refines.

pub mod run;
pub mod state;

pub use state::Pressure;

use vstd::prelude::*;

use crate::{chx, fluid, hhx, regen, ws};

verus! {

/// A whole engine, as configured: the working fluid and the four
/// component models.
#[derive(Debug, Clone, Copy)]
pub struct EngineConfig<T> {
    pub fluid: fluid::Config,
    pub components: ComponentsConfig<T>,
}

/// The component models of a configured engine.
#[derive(Debug, Clone, Copy)]
pub struct ComponentsConfig<T> {
    pub chx: chx::Config<T>,
    pub hhx: hhx::Config<T>,
    pub regen: regen::Config<T>,
    pub ws: ws::WorkingSpacesConfig<T>,
}

} // verus!
