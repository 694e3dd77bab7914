//! Cyclic steady-state analysis of a Stirling engine.
//!
//! The crate models the decision structure of a nested thermodynamic solver:
//! the flow-direction fixed point that the per-instant state equations
//! require, the inner successive-substitution loop that finds self-consistent
//! initial conditions for one cycle, and the outer thermal-balance loop that
//! adjusts component temperatures until the engine is consistent.
//!
//! Every data type is parameterized by the scalar type of the host
//! application, so the structural rules proved here — which enthalpy is
//! upstream, when a fixed point is terminal, how iteration budgets are
//! spent, how a trajectory is assembled — hold for whatever number
//! representation the caller integrates with.

pub mod api;
pub mod chx;
pub mod engine;
pub mod fluid;
pub mod hhx;
pub mod regen;
pub mod state_equations;
pub mod types;
pub mod ws;

pub use state_equations::{LuSolver, QrSolver, SvdDefaultSolver};
