//! The search for cyclic steady state: its inputs and the successive
//! substitution of end-of-cycle conditions into the next round.

use vstd::prelude::*;

use super::types::Conditions;
use crate::types::{ConvergenceTolerance, OdeTolerance};

verus! {

/// Inputs to the search for cyclic steady state.
///
/// Cyclic steady state occurs when the temperature conditions (`T_c` and
/// `T_e`) at the end of the cycle are equal to those at the start.
#[derive(Debug, Clone, Copy)]
pub struct SteadyStateInputs<T> {
    pub pres_zero: T,
    pub temp_comp_hint: T,
    pub temp_exp_hint: T,
    pub num_points: u32,
    pub ode_tol: OdeTolerance<T>,
    pub conv_tol: ConvergenceTolerance<T>,
    pub max_iters: usize,
}

/// The initial conditions for the first round of the steady-state search:
/// pressure at time zero and the two temperature hints.
pub fn initial_conditions<T: Copy>(inputs: &SteadyStateInputs<T>) -> (r: Conditions<T>)
    ensures
        r.P == inputs.pres_zero,
        r.T_c == inputs.temp_comp_hint,
        r.T_e == inputs.temp_exp_hint,
{
    Conditions {
        P: inputs.pres_zero,
        T_c: inputs.temp_comp_hint,
        T_e: inputs.temp_exp_hint,
    }
}

/// One round of successive substitution: the end-of-cycle temperatures
/// become the next round's starting temperatures, while the pressure is
/// reset to the fixed `pres_zero` — it is not part of the substitution,
/// because conservation of mass and energy forces it to close on its own.
pub fn next_initial_conditions<T: Copy>(pres_zero: T, end_of_cycle: Conditions<T>) -> (r:
    Conditions<T>)
    ensures
        r.P == pres_zero,
        r.T_c == end_of_cycle.T_c,
        r.T_e == end_of_cycle.T_e,
{
    Conditions { P: pres_zero, T_c: end_of_cycle.T_c, T_e: end_of_cycle.T_e }
}

} // verus!
