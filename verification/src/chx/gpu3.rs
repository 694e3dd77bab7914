use vstd::prelude::*;

verus! {

/// A cold heat exchanger with the geometry of the GPU-3 engine.
///
/// The detailed correlations for this model run in the host application;
/// the type stands here so a configuration can select it.
#[derive(Debug, Clone, Copy, PartialEq, Eq, Structural)]
pub struct GPU3 {}

/// Configuration for a GPU3 cold heat exchanger.
#[allow(non_snake_case)]
#[derive(Debug, Clone, Copy)]
pub struct Config<T> {
    pub length_total: T,
    pub length_ht: T,
    pub D_inner: T,
    pub D_outer: T,
    pub N_total: u32,
    pub N_shell: u32,
    pub D_sh: T,
    pub Ac_d: T,
    pub roughness: T,
    pub vol_h: T,
    pub m_dot_w: T,
    pub coolant: Coolant,
    pub m_dot_a: T,
    pub UA_a: T,
    pub W_parasitic: T,
}

/// The coolants a GPU3 cold heat exchanger can reject heat to.
#[derive(Debug, Clone, Copy, PartialEq, Eq, Structural)]
pub enum Coolant {
    Water,
}

} // verus!
