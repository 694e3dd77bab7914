//! Settings of an engine run and the outer loop's relation to them.

pub use crate::types::{LoopTolerance, MaxIters};

use vstd::prelude::*;

use crate::types::OdeTolerance;

verus! {

/// Settings for an engine run: the report resolution, the tolerances of
/// the two fixed-point loops and of the integrator, and the iteration
/// budgets.
///
/// The outer thermal-balance loop itself runs in the host application: it
/// alternates a steady-state solve with a state update, reporting each
/// round to a [`crate::types::LoopControl`] built from `max_iters.outer`,
/// exactly as the inner loop reports to one built from `max_iters.inner`.
#[derive(Debug, Clone, Copy)]
pub struct Settings<T> {
    pub resolution: u32,
    pub loop_tol: LoopTolerance<T>,
    pub ode_tol: OdeTolerance<T>,
    pub max_iters: MaxIters,
}

} // verus!
