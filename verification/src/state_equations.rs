//! The per-instant state-equation layer: its data model, the
//! flow-direction fixed point, and the trajectory of one integrated cycle.

pub mod cycle;
pub mod flow_direction;
pub mod integrator;
pub mod solver;
pub mod types;

pub use self::cycle::SteadyStateInputs;
pub use self::flow_direction::{Direction, FlowDirection, FlowSigns};
pub use self::integrator::Integration;
pub use self::solver::{SvdDefault as SvdDefaultSolver, LU as LuSolver, QR as QrSolver};
pub use self::types::{
    Conditions, HeatExchangerInputs, Inputs, RegeneratorInputs, Solution, Values,
    WorkingSpaceInputs,
};
