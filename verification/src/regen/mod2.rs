use vstd::prelude::*;

use super::types::{FrictionFactorCorrelation, JFactorCorrelation};
use crate::types::Material;

verus! {

/// A regenerator with the geometry of the Mod II/I engine.
///
/// The detailed correlations for this model run in the host application;
/// the type stands here so a configuration can select it.
#[derive(Debug, Clone, Copy, PartialEq, Eq, Structural)]
pub struct Mod2 {}

/// Configuration for a Mod II/I regenerator.
#[derive(Debug, Clone, Copy)]
pub struct Config<T> {
    pub geometry: Geometry<T>,
    pub correlationtype: Correlation,
    pub correlationf: FrictionFactorCorrelation,
    pub correlationj: JFactorCorrelation,
}

/// The mesh-and-shell geometry of a Mod II/I regenerator.
#[derive(Debug, Clone, Copy)]
pub struct Geometry<T> {
    pub mesh: Mesh<T>,
    pub shell: Shell<T>,
}

/// The wire mesh that stores the heat.
#[allow(non_snake_case)]
#[derive(Debug, Clone, Copy)]
pub struct Mesh<T> {
    pub material: Material,
    pub D_wire: T,
    pub pitch: T,
}

/// The shell around the mesh.
#[allow(non_snake_case)]
#[derive(Debug, Clone, Copy)]
pub struct Shell<T> {
    pub material: Material,
    pub R_sh: T,
    pub th_sh_cold: T,
    pub th_sh_hot: T,
    pub length: T,
}

/// The heat-transfer correlations available to the Mod II/I model.
#[derive(Debug, Clone, Copy, PartialEq, Eq, Structural)]
pub enum Correlation {
    Steady,
    Oscillating,
}

} // verus!
