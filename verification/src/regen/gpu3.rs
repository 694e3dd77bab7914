use vstd::prelude::*;

use super::types::{FrictionFactorCorrelation, JFactorCorrelation};
use crate::types::Material;

verus! {

/// A regenerator with the geometry of the GPU-3 engine.
///
/// The detailed correlations for this model run in the host application;
/// the type stands here so a configuration can select it.
#[derive(Debug, Clone, Copy, PartialEq, Eq, Structural)]
pub struct GPU3 {}

/// Configuration for a GPU3 regenerator.
#[allow(non_snake_case)]
#[derive(Debug, Clone, Copy)]
pub struct Config<T> {
    pub geometry: Geometry<T>,
    pub Q_parasitic: T,
    pub bypass: T,
    pub correlationf: FrictionFactorCorrelation,
    pub correlationj: JFactorCorrelation,
}

/// The mesh-and-shell geometry of a GPU3 regenerator.
#[derive(Debug, Clone, Copy)]
pub struct Geometry<T> {
    pub vol_h: T,
    pub mesh: Mesh<T>,
    pub shell: Shell<T>,
}

/// The wire mesh that stores the heat.
#[allow(non_snake_case)]
#[derive(Debug, Clone, Copy)]
pub struct Mesh<T> {
    pub material: Material,
    pub D_wire: T,
    pub pitch: T,
}

/// The shells around the mesh.
#[derive(Debug, Clone, Copy)]
pub struct Shell<T> {
    pub diameter: T,
    pub length: T,
    pub number: u32,
}

} // verus!
