use vstd::prelude::*;

use crate::types::Material;

verus! {

/// A cold heat exchanger with the geometry of the Mod II/I engine.
///
/// The detailed correlations for this model run in the host application;
/// the type stands here so a configuration can select it.
#[derive(Debug, Clone, Copy, PartialEq, Eq, Structural)]
pub struct Mod2 {}

/// Configuration for a Mod II/I cold heat exchanger.
#[allow(non_snake_case)]
#[derive(Debug, Clone, Copy)]
pub struct Config<T> {
    pub geometry: Geometry<T>,
    pub m_dot_p_fs: T,
    pub W_dot_p_fs: T,
    pub n_fs: T,
    pub fluid: Fluid,
    pub correlation: Correlation,
}

/// The tube-and-shell geometry of a Mod II/I cold heat exchanger.
#[derive(Debug, Clone, Copy)]
pub struct Geometry<T> {
    pub tubes: Tubes<T>,
    pub shell: Shell<T>,
}

/// The tube bundle of a Mod II/I cold heat exchanger.
#[allow(non_snake_case)]
#[derive(Debug, Clone, Copy)]
pub struct Tubes<T> {
    pub length: T,
    pub length_ht: T,
    pub D_outer: T,
    pub D_inner: T,
    pub N_total: u32,
    pub roughness: T,
    pub material: Material,
}

/// The shell around the tube bundle.
#[allow(non_snake_case)]
#[derive(Debug, Clone, Copy)]
pub struct Shell<T> {
    pub R_inner: T,
    pub V_header: T,
    pub Ac_header: T,
}

/// The coolants a Mod II/I cold heat exchanger can reject heat to.
#[derive(Debug, Clone, Copy, PartialEq, Eq, Structural)]
pub enum Fluid {
    Water,
}

/// The heat-transfer correlations available to the Mod II/I model.
#[derive(Debug, Clone, Copy, PartialEq, Eq, Structural)]
pub enum Correlation {
    Oscillating,
    Steady,
}

} // verus!
