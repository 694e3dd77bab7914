use vstd::prelude::*;

verus! {

/// The crank drive of the GPU-3 engine.
///
/// The volume variations for this model run in the host application; the
/// type stands here so a configuration can select it.
#[derive(Debug, Clone, Copy, PartialEq, Eq, Structural)]
pub struct GPU3 {}

/// Configuration for the GPU3 drive.
#[allow(non_snake_case)]
#[derive(Debug, Clone, Copy)]
pub struct Config<T> {
    pub frequency: T,
    pub V_clearance_c: T,
    pub R_c: T,
    pub V_clearance_e: T,
    pub R_e: T,
    pub r_crank: T,
    pub L_conn: T,
    pub eccentricity: T,
    pub D: T,
    pub D_dr: T,
    pub L: T,
    pub h: T,
}

} // verus!
