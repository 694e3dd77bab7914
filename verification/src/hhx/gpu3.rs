use vstd::prelude::*;

verus! {

/// A hot heat exchanger with the geometry of the GPU-3 engine.
///
/// The detailed correlations for this model run in the host application;
/// the type stands here so a configuration can select it.
#[derive(Debug, Clone, Copy, PartialEq, Eq, Structural)]
pub struct GPU3 {}

/// Configuration for a GPU3 hot heat exchanger.
#[allow(non_snake_case)]
#[derive(Debug, Clone, Copy)]
pub struct Config<T> {
    pub L_total: T,
    pub L_htr: T,
    pub R_tc: T,
    pub D_outer: T,
    pub D_inner: T,
    pub roughness: T,
    pub N_total: u32,
    pub vol_h: T,
    pub eta_comb: T,
    pub R_c_loss: T,
    pub W_parasitic: T,
}

} // verus!
