//! The public results of an engine run.

use vstd::prelude::*;

verus! {

/// The results of an engine run.
#[derive(Debug, Clone)]
pub struct RunResults<T> {
    /// Engine efficiency (-)
    pub efficiency: Efficiency<T>,
    /// Average heat flow rates (W)
    pub heat_flow: HeatFlow<T>,
    /// Average mass flow rates through the heat exchangers (kg/s)
    pub mass_flow: MassFlow<T>,
    /// Engine power (W)
    pub power: Power<T>,
    /// Engine pressure (Pa)
    pub pressure: Pressure<T>,
    /// Regenerator approach temperature imbalance (K)
    pub regen_imbalance: T,
    /// Shaft torque (N-m)
    pub shaft_torque: T,
    /// Engine temperatures (K)
    pub temperature: Temperature<T>,
    /// Time-discretized values over one engine cycle
    pub values: Values<T>,
}

/// Different characterizations of engine efficiency.
#[derive(Debug, Clone, Copy)]
pub struct Efficiency<T> {
    /// Mechanical efficiency, which ignores electrical parasitics
    pub mechanical: T,
    /// Overall efficiency, which includes electrical parasitics
    pub overall: T,
}

/// Average heat flow rates (W).
#[derive(Debug, Clone, Copy)]
pub struct HeatFlow<T> {
    /// Total heat input to the engine
    pub input: T,
    /// Total heat rejection from the engine
    pub rejection: T,
    /// Heat flow through the cold heat exchanger
    pub chx: T,
    /// Heat flow into the regenerator
    pub regen: T,
    /// Heat flow through the hot heat exchanger
    pub hhx: T,
}

/// Average mass flow rates through the heat exchangers (kg/s).
#[derive(Debug, Clone, Copy)]
pub struct MassFlow<T> {
    pub chx: T,
    pub regen: T,
    pub hhx: T,
}

/// Different characterizations of engine power.
#[derive(Debug, Clone, Copy)]
pub struct Power<T> {
    /// Ideal indicated power, which assumes no hxr pressure drop (W)
    pub ideal_indicated: T,
    /// Indicated power, which accounts for hxr pressure drop (W)
    pub indicated: T,
    /// Shaft power: the indicated power less any mechanical parasitics
    /// in the working spaces (W)
    pub shaft: T,
    /// Net power: the shaft power less any mechanical parasitics in the
    /// heat exchangers (W)
    pub net: T,
}

/// Engine pressure (Pa).
#[derive(Debug, Clone, Copy)]
pub struct Pressure<T> {
    pub avg: T,
    pub max: T,
    pub min: T,
    pub t_zero: T,
}

/// Engine temperature (K).
#[derive(Debug, Clone, Copy)]
pub struct Temperature<T> {
    pub sink: T,
    pub chx: T,
    pub regen_cold: T,
    pub regen_avg: T,
    pub regen_hot: T,
    pub hhx: T,
    pub source: T,
}

/// Time-discretized values over one engine cycle.
///
/// This struct represents discrete values in time during a single engine
/// cycle, all sharing a common index.  For example, at `time[5]` the
/// compression space temperature is `T_c[5]` and the mass flow rate
/// between the chx and the regenerator is `m_dot_kr[5]`.
///
/// For mass flow rate values, positive values indicate flow from cold to
/// hot (i.e., positive flow is comp -> chx -> regen -> hhx -> exp).
/// Negative values represent mass flow in the opposite direction.
#[allow(non_snake_case)]
#[derive(Debug, Clone)]
pub struct Values<T> {
    /// Time in the cycle for each discrete point (s)
    pub time: Vec<T>,
    /// Pressure in all volumes, assuming no hxr pressure drop (Pa)
    pub P: Vec<T>,
    /// Pressure in the compression space, accounting for hxr pressure drop (Pa)
    pub P_c: Vec<T>,
    /// Pressure in the expansion space, accounting for hxr pressure drop (Pa)
    pub P_e: Vec<T>,
    /// Temperature in the compression space (K)
    pub T_c: Vec<T>,
    /// Temperature in the expansion space (K)
    pub T_e: Vec<T>,
    /// Mass flow rate from compression space to cold heat exchanger (kg/s)
    pub m_dot_ck: Vec<T>,
    /// Mass flow rate from cold heat exchanger to regenerator (kg/s)
    pub m_dot_kr: Vec<T>,
    /// Mass flow rate from regenerator to hot heat exchanger (kg/s)
    pub m_dot_rl: Vec<T>,
    /// Mass flow rate from hot heat exchanger to expansion space (kg/s)
    pub m_dot_le: Vec<T>,
    /// Heat flow rate in the cold heat exchanger (W)
    pub Q_dot_k: Vec<T>,
    /// Heat flow rate in the regenerator (W)
    pub Q_dot_r: Vec<T>,
    /// Heat flow rate in the hot heat exchanger (W)
    pub Q_dot_l: Vec<T>,
}

} // verus!
