use vstd::prelude::*;

use crate::types::Material;

verus! {

/// A hot heat exchanger with the geometry of the Mod II/I engine.
///
/// The detailed correlations for this model run in the host application;
/// the type stands here so a configuration can select it.
#[derive(Debug, Clone, Copy, PartialEq, Eq, Structural)]
pub struct Mod2 {}

/// Configuration for a Mod II/I hot heat exchanger.
#[derive(Debug, Clone, Copy)]
pub struct Config<T> {
    pub geometry: Geometry<T>,
    pub correlation: Correlation,
}

/// The finned tube-and-shell geometry of a Mod II/I hot heat exchanger.
#[derive(Debug, Clone, Copy)]
pub struct Geometry<T> {
    pub tubes: Tubes<T>,
    pub shell: Shell<T>,
    pub fins: Fins<T>,
}

/// The tube bundle of a Mod II/I hot heat exchanger.
#[allow(non_snake_case)]
#[derive(Debug, Clone, Copy)]
pub struct Tubes<T> {
    pub L_front: T,
    pub L_rear: T,
    pub L_inactive: T,
    pub D_outer: T,
    pub D_inner: T,
    pub roughness: T,
    pub N_total: u32,
    pub materialtube: Material,
    pub materialfin: Material,
}

/// The shell around the tube bundle.
#[allow(non_snake_case)]
#[derive(Debug, Clone, Copy)]
pub struct Shell<T> {
    pub R_outer: T,
    pub R_inner: T,
    pub V_header: T,
}

/// The fins brazed onto the tubes.
#[allow(non_snake_case)]
#[derive(Debug, Clone, Copy)]
pub struct Fins<T> {
    pub thickness: T,
    pub pitch: T,
    pub L_fin: T,
}

/// The heat-transfer correlations available to the Mod II/I model.
#[derive(Debug, Clone, Copy, PartialEq, Eq, Structural)]
pub enum Correlation {
    Oscillating,
    Steady,
}

} // verus!
