//! The engine state the outer loop refines, and the per-quantity view of
//! a converged trajectory it is derived from.

use vstd::prelude::*;

use crate::state_equations;

verus! {

/// The state of a running Stirling engine.
///
/// `F` is the host application's fluid model and `T` its scalar type.
/// The state is replaced wholesale once per outer-loop round — derived
/// anew from the latest converged trajectory — and frozen at convergence.
#[derive(Debug, Clone, Copy)]
pub struct State<F, T> {
    pub fluid: F,
    pub pres: Pressure<T>,
    pub temp: Temperatures<T>,
    pub mass_flow: MassFlows<T>,
    pub heat_flow: HeatFlows<T>,
    pub regen_imbalance: RegenImbalance<T>,
}

/// Engine pressure over the cycle in Pa.
#[derive(Debug, Clone, Copy)]
pub struct Pressure<T> {
    pub avg: T,
    pub max: T,
    pub min: T,
    pub t_zero: T,
}

/// Constant engine temperatures in K.
#[derive(Debug, Clone, Copy)]
pub struct Temperatures<T> {
    pub sink: T,
    pub chx: T,
    pub regen: RegenTemp<T>,
    pub hhx: T,
    pub source: T,
}

/// Temperatures associated with the regenerator.
#[derive(Debug, Clone, Copy)]
pub struct RegenTemp<T> {
    pub cold: T,
    pub avg: T,
    pub hot: T,
}

/// Average mass flow rates through the heat exchangers in kg/s.
#[derive(Debug, Clone, Copy)]
pub struct MassFlows<T> {
    pub chx: T,
    pub regen: T,
    pub hhx: T,
}

/// Average heat flow rates through the heat exchangers in W.
#[derive(Debug, Clone, Copy)]
pub struct HeatFlows<T> {
    pub chx: T,
    pub regen: T,
    pub hhx: T,
}

/// The regenerator approach temperature imbalance in K.
///
/// A regenerator is a unique heat exchanger in that it effectively has
/// two approach temperatures: a cold-side approach and a hot-side
/// approach.  When a single approach characterizes the regenerator, it is
/// taken to be the smaller of the two, and the imbalance gives back the
/// other one: a positive imbalance widens the hot-side approach, a
/// negative one the cold side.
#[derive(Debug, Clone, Copy)]
pub struct RegenImbalance<T>(pub T);

/// Time-discretized state values within a Stirling engine.
///
/// All vectors share a common index: at `time[i]` the pressure is `P[i]`,
/// the compression-space temperature `T_c[i]`, and so on.
#[allow(non_snake_case)]
#[derive(Debug, Clone)]
pub struct Values<T> {
    pub time: Vec<T>,
    pub P: Vec<T>,
    pub T_c: Vec<T>,
    pub T_e: Vec<T>,
    pub m_dot_ck: Vec<T>,
    pub m_dot_kr: Vec<T>,
    pub m_dot_rl: Vec<T>,
    pub m_dot_le: Vec<T>,
    pub Q_dot_k: Vec<T>,
    pub Q_dot_r: Vec<T>,
    pub Q_dot_l: Vec<T>,
}

/// Distribute a regenerator's single approach temperature onto its two
/// sides, returning `(cold_approach, hot_approach)`.
///
/// The single approach is the smaller of the two; the imbalance widens
/// the other one.  A nonnegative imbalance widens the hot side, a
/// negative one the cold side, and the caller supplies `widened`, the
/// approach grown by the imbalance's magnitude.
pub fn regen_approach_sides<T: Copy>(imbalance_negative: bool, single: T, widened: T) -> (r: (
    T,
    T,
))
    ensures
        !imbalance_negative ==> r == (single, widened),
        imbalance_negative ==> r == (widened, single),
{
    if imbalance_negative {
        (widened, single)
    } else {
        (single, widened)
    }
}

impl<T: Copy> Pressure<T> {
    /// Create a `Pressure` that is constant over a cycle.
    pub fn constant(value: T) -> (r: Self)
        ensures
            r.avg == value,
            r.max == value,
            r.min == value,
            r.t_zero == value,
    {
        Self { avg: value, max: value, min: value, t_zero: value }
    }
}

impl<T: Copy> MassFlows<T> {
    /// Assume all `MassFlows` are a constant `value`.
    pub fn constant(value: T) -> (r: Self)
        ensures
            r.chx == value,
            r.regen == value,
            r.hhx == value,
    {
        Self { chx: value, regen: value, hhx: value }
    }
}

impl<T: Copy> HeatFlows<T> {
    /// Assume all `HeatFlows` are a constant `value`.
    pub fn constant(value: T) -> (r: Self)
        ensures
            r.chx == value,
            r.regen == value,
            r.hhx == value,
    {
        Self { chx: value, regen: value, hhx: value }
    }
}

impl<T: Copy> Values<T> {
    /// Reshape a trajectory — one record per sample — into one vector per
    /// quantity, all sharing the sample index.
    ///
    /// Every sample is carried over unchanged: vector `i` of the result
    /// holds exactly the fields of sample `i` of the input.
    #[allow(non_snake_case)]
    pub fn from(values: Vec<state_equations::Values<T>>) -> (r: Self)
        ensures
            r.time@.len() == values@.len(),
            r.P@.len() == values@.len(),
            r.T_c@.len() == values@.len(),
            r.T_e@.len() == values@.len(),
            r.m_dot_ck@.len() == values@.len(),
            r.m_dot_kr@.len() == values@.len(),
            r.m_dot_rl@.len() == values@.len(),
            r.m_dot_le@.len() == values@.len(),
            r.Q_dot_k@.len() == values@.len(),
            r.Q_dot_r@.len() == values@.len(),
            r.Q_dot_l@.len() == values@.len(),
            forall|i: int|
                0 <= i < values@.len() ==> #[trigger] r.time@[i] == values@[i].time,
            forall|i: int|
                0 <= i < values@.len() ==> #[trigger] r.P@[i] == values@[i].conditions.P,
            forall|i: int|
                0 <= i < values@.len() ==> #[trigger] r.T_c@[i] == values@[i].conditions.T_c,
            forall|i: int|
                0 <= i < values@.len() ==> #[trigger] r.T_e@[i] == values@[i].conditions.T_e,
            forall|i: int|
                0 <= i < values@.len() ==> #[trigger] r.m_dot_ck@[i]
                    == values@[i].solution.m_dot_ck,
            forall|i: int|
                0 <= i < values@.len() ==> #[trigger] r.m_dot_kr@[i]
                    == values@[i].solution.m_dot_kr,
            forall|i: int|
                0 <= i < values@.len() ==> #[trigger] r.m_dot_rl@[i]
                    == values@[i].solution.m_dot_rl,
            forall|i: int|
                0 <= i < values@.len() ==> #[trigger] r.m_dot_le@[i]
                    == values@[i].solution.m_dot_le,
            forall|i: int|
                0 <= i < values@.len() ==> #[trigger] r.Q_dot_k@[i] == values@[i].solution.Q_dot_k,
            forall|i: int|
                0 <= i < values@.len() ==> #[trigger] r.Q_dot_r@[i] == values@[i].solution.Q_dot_r,
            forall|i: int|
                0 <= i < values@.len() ==> #[trigger] r.Q_dot_l@[i] == values@[i].solution.Q_dot_l,
    {
        let n: usize = values.len();
        let mut time: Vec<T> = Vec::new();
        let mut P: Vec<T> = Vec::new();
        let mut T_c: Vec<T> = Vec::new();
        let mut T_e: Vec<T> = Vec::new();
        let mut m_dot_ck: Vec<T> = Vec::new();
        let mut m_dot_kr: Vec<T> = Vec::new();
        let mut m_dot_rl: Vec<T> = Vec::new();
        let mut m_dot_le: Vec<T> = Vec::new();
        let mut Q_dot_k: Vec<T> = Vec::new();
        let mut Q_dot_r: Vec<T> = Vec::new();
        let mut Q_dot_l: Vec<T> = Vec::new();

        let mut idx: usize = 0;
        while idx < n
            invariant
                n == values@.len(),
                idx <= n,
                time@.len() == idx,
                P@.len() == idx,
                T_c@.len() == idx,
                T_e@.len() == idx,
                m_dot_ck@.len() == idx,
                m_dot_kr@.len() == idx,
                m_dot_rl@.len() == idx,
                m_dot_le@.len() == idx,
                Q_dot_k@.len() == idx,
                Q_dot_r@.len() == idx,
                Q_dot_l@.len() == idx,
                forall|j: int| 0 <= j < idx ==> #[trigger] time@[j] == values@[j].time,
                forall|j: int| 0 <= j < idx ==> #[trigger] P@[j] == values@[j].conditions.P,
                forall|j: int| 0 <= j < idx ==> #[trigger] T_c@[j] == values@[j].conditions.T_c,
                forall|j: int| 0 <= j < idx ==> #[trigger] T_e@[j] == values@[j].conditions.T_e,
                forall|j: int|
                    0 <= j < idx ==> #[trigger] m_dot_ck@[j] == values@[j].solution.m_dot_ck,
                forall|j: int|
                    0 <= j < idx ==> #[trigger] m_dot_kr@[j] == values@[j].solution.m_dot_kr,
                forall|j: int|
                    0 <= j < idx ==> #[trigger] m_dot_rl@[j] == values@[j].solution.m_dot_rl,
                forall|j: int|
                    0 <= j < idx ==> #[trigger] m_dot_le@[j] == values@[j].solution.m_dot_le,
                forall|j: int|
                    0 <= j < idx ==> #[trigger] Q_dot_k@[j] == values@[j].solution.Q_dot_k,
                forall|j: int|
                    0 <= j < idx ==> #[trigger] Q_dot_r@[j] == values@[j].solution.Q_dot_r,
                forall|j: int|
                    0 <= j < idx ==> #[trigger] Q_dot_l@[j] == values@[j].solution.Q_dot_l,
            decreases n - idx,
        {
            let value = values[idx];
            time.push(value.time);
            P.push(value.conditions.P);
            T_c.push(value.conditions.T_c);
            T_e.push(value.conditions.T_e);
            m_dot_ck.push(value.solution.m_dot_ck);
            m_dot_kr.push(value.solution.m_dot_kr);
            m_dot_rl.push(value.solution.m_dot_rl);
            m_dot_le.push(value.solution.m_dot_le);
            Q_dot_k.push(value.solution.Q_dot_k);
            Q_dot_r.push(value.solution.Q_dot_r);
            Q_dot_l.push(value.solution.Q_dot_l);
            idx = idx + 1;
        }

        Self {
            time,
            P,
            T_c,
            T_e,
            m_dot_ck,
            m_dot_kr,
            m_dot_rl,
            m_dot_le,
            Q_dot_k,
            Q_dot_r,
            Q_dot_l,
        }
    }

    /// Return the last `self.time` value: the cycle period that the
    /// trajectory reached.
    pub fn final_time(&self) -> (r: T)
        requires
            self.time@.len() > 0,
        ensures
            r == self.time@.last(),
    {
        let last: usize = self.time.len() - 1;
        self.time[last]
    }
}

} // verus!
