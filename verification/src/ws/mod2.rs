use vstd::prelude::*;

use crate::types::Material;

verus! {

/// The drive of the Mod II/I engine.
///
/// The volume variations for this model run in the host application; the
/// type stands here so a configuration can select it.
#[derive(Debug, Clone, Copy, PartialEq, Eq, Structural)]
pub struct Mod2 {}

/// Configuration for the Mod II/I drive.
#[allow(non_snake_case)]
#[derive(Debug, Clone, Copy)]
pub struct Config<T> {
    pub frequency: T,
    pub phase_angle: T,
    pub D: T,
    pub h: T,
    pub L: T,
    pub stroke: T,
    pub V_clearance_c: T,
    pub R_c: T,
    pub V_clearance_e: T,
    pub R_e: T,
    pub material_p: Material,
    pub material_c: Material,
    pub th_pw: T,
    pub th_cw: T,
    pub L_cond: T,
    pub e: T,
}

} // verus!
