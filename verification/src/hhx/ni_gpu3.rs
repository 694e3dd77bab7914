use vstd::prelude::*;

verus! {

/// A GPU-3 hot heat exchanger heated by a nuclear isomer instead of a
/// combustor.
///
/// The detailed correlations for this model run in the host application;
/// the type stands here so a configuration can select it.
#[derive(Debug, Clone, Copy, PartialEq, Eq, Structural)]
pub struct NuclearIsomerGPU3 {}

/// Configuration for a nuclear-isomer GPU3 hot heat exchanger.
#[allow(non_snake_case)]
#[derive(Debug, Clone, Copy)]
pub struct Config<T> {
    pub R_f: T,
    pub L_f: T,
    pub R_regen: T,
    pub D_outer: T,
    pub D_inner: T,
    pub k_f: T,
    pub roughness: T,
    pub N_total: u32,
    pub vol_h: T,
    pub R_ins: T,
    pub W_parasitic: T,
}

} // verus!
