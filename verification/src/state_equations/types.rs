//! The values flowing through the state equations: per-volume inputs,
//! the solved rates and derivatives, and conditions at a point in time.

use vstd::prelude::*;

verus! {

/// Inputs required to generate the `Ax=b` system of state equations.
///
/// One value is produced for every `(time, Conditions)` pair the integrator
/// visits; the host application fills it from its fluid and component
/// models and never mutates it afterwards.
#[derive(Debug, Clone, Copy)]
pub struct Inputs<T> {
    pub pres: T,
    pub enth_norm: T,
    pub comp: WorkingSpaceInputs<T>,
    pub chx: HeatExchangerInputs<T>,
    pub regen: RegeneratorInputs<T>,
    pub hhx: HeatExchangerInputs<T>,
    pub exp: WorkingSpaceInputs<T>,
}

/// State equation inputs related to the working spaces.
#[allow(non_snake_case)]
#[derive(Debug, Clone, Copy)]
pub struct WorkingSpaceInputs<T> {
    pub vol: T,
    pub dens: T,
    pub inte: T,
    pub enth: T,
    pub dd_dP_T: T,
    pub dd_dT_P: T,
    pub du_dP_T: T,
    pub du_dT_P: T,
    pub dV_dt: T,
    pub Q_dot: T,
}

/// State equation inputs related to the heat exchangers.
#[allow(non_snake_case)]
#[derive(Debug, Clone, Copy)]
pub struct HeatExchangerInputs<T> {
    pub vol: T,
    pub dens: T,
    pub inte: T,
    pub enth: T,
    pub dd_dP_T: T,
    pub du_dP_T: T,
}

/// State equation inputs related to the regenerator.
///
/// The regenerator is the one volume with two boundary enthalpies: its cold
/// face meets the cold heat exchanger and its hot face the hot one.
#[allow(non_snake_case)]
#[derive(Debug, Clone, Copy)]
pub struct RegeneratorInputs<T> {
    pub vol: T,
    pub dens: T,
    pub inte: T,
    pub enth_cold: T,
    pub enth_hot: T,
    pub dd_dP_T: T,
    pub du_dP_T: T,
}

/// Solution to the state equations: the four inter-volume mass-flow rates,
/// the three heat-flow rates, and the three state derivatives produced by
/// one linear solve.
#[allow(non_snake_case)]
#[derive(Debug, Clone, Copy)]
pub struct Solution<T> {
    pub m_dot_ck: T,
    pub m_dot_kr: T,
    pub m_dot_rl: T,
    pub m_dot_le: T,
    pub Q_dot_k: T,
    pub Q_dot_r: T,
    pub Q_dot_l: T,
    pub dTc_dt: T,
    pub dTe_dt: T,
    pub dP_dt: T,
}

/// Conditions within the cycle.
///
/// `P`   -- pressure (Pa) in all control volumes
/// `T_c` -- temperature (K) in the compression space
/// `T_e` -- temperature (K) in the expansion space
#[allow(non_snake_case)]
#[derive(Debug, Clone, Copy)]
pub struct Conditions<T> {
    pub P: T,
    pub T_c: T,
    pub T_e: T,
}

/// The conditions and solution within the cycle at a point in time.
#[derive(Debug, Clone, Copy)]
pub struct Values<T> {
    pub time: T,
    pub conditions: Conditions<T>,
    pub solution: Solution<T>,
}

} // verus!
