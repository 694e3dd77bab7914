//! The flow-direction fixed point around the linear solve: hypothesis,
//! adjustment budget, and the strategy markers for the decomposition used.

use vstd::prelude::*;

use super::flow_direction::{FlowDirection, FlowSigns};

verus! {

/// The maximum number of times flow directions can be updated before a
/// solve fails with a flow-direction divergence.
pub const ALLOWED_FLOW_UPDATES: u32 = 3;

/// What the flow-direction fixed point does with one solved system.
#[derive(Debug, Clone, Copy, PartialEq, Eq, Structural)]
pub enum FlowStep {
    /// The solved signs reproduce the hypothesis: the state is terminal and
    /// the solution just produced is the answer.
    Converged,
    /// The solved signs contradict the hypothesis; the derived directions
    /// become the next hypothesis and the system is solved again.
    Retry,
    /// The solved signs contradict the hypothesis and the adjustment budget
    /// is spent: the solve fails, and no caller retries it.
    Diverged,
}

/// The state of one flow-direction resolution.
///
/// Solving the state equations requires assuming a direction for each of
/// the four inter-volume mass flows, because the direction picks the
/// upstream enthalpy.  The resolver holds the current hypothesis and the
/// number of adjustments already made; the host application alternates
/// linear solves with calls to [`FlowResolver::observe`].
#[derive(Debug, Clone, Copy, PartialEq, Eq, Structural)]
pub struct FlowResolver {
    /// The directions the next (or current) solve assumes.
    pub hypothesis: FlowDirection,
    /// How many times the hypothesis has been replaced so far.
    pub updates: u32,
}

impl FlowResolver {
    /// A resolver never spends more than its adjustment budget.
    pub open spec fn wf(self) -> bool {
        self.updates <= ALLOWED_FLOW_UPDATES
    }

    /// Start a resolution from a hint: typically the previous timestep's
    /// resolved direction, or all-unknown for a cold start.
    pub fn new(hint: FlowDirection) -> (r: Self)
        ensures
            r.hypothesis == hint,
            r.updates == 0,
            r.wf(),
    {
        FlowResolver { hypothesis: hint, updates: 0 }
    }

    /// The step the resolver takes on seeing the signs of the solution
    /// that its current hypothesis produced.
    pub open spec fn spec_step(self, signs: FlowSigns) -> FlowStep {
        if FlowDirection::spec_from_signs(signs) == self.hypothesis {
            FlowStep::Converged
        } else if self.updates >= ALLOWED_FLOW_UPDATES {
            FlowStep::Diverged
        } else {
            FlowStep::Retry
        }
    }

    /// The resolver state after one observation: only a retry changes it,
    /// adopting the derived directions and spending one adjustment.
    pub open spec fn spec_after(self, signs: FlowSigns) -> FlowResolver {
        if self.spec_step(signs) == FlowStep::Retry {
            FlowResolver {
                hypothesis: FlowDirection::spec_from_signs(signs),
                updates: (self.updates + 1) as u32,
            }
        } else {
            self
        }
    }

    /// Account for one solved system: terminal if the solved signs agree
    /// with the hypothesis, a fresh hypothesis while budget remains, and a
    /// divergence once it is spent.
    pub fn observe(&mut self, signs: FlowSigns) -> (r: FlowStep)
        requires
            old(self).wf(),
        ensures
            final(self).wf(),
            r == old(self).spec_step(signs),
            *final(self) == old(self).spec_after(signs),
            r is Converged ==> *final(self) == *old(self),
            r is Diverged ==> *final(self) == *old(self),
            r is Retry ==> final(self).hypothesis == FlowDirection::spec_from_signs(signs)
                && final(self).updates == old(self).updates + 1,
    {
        let actual = FlowDirection::from_signs(signs);
        if actual == self.hypothesis {
            FlowStep::Converged
        } else if self.updates >= ALLOWED_FLOW_UPDATES {
            FlowStep::Diverged
        } else {
            self.hypothesis = actual;
            self.updates = self.updates + 1;
            FlowStep::Retry
        }
    }
}

/// Law: flow-direction resolution is idempotent.  A hypothesis already
/// consistent with the signs of the solution it produced is terminal: the
/// resolver converges on the very next observation, in exactly one round,
/// no matter how much of the adjustment budget is already spent.
pub proof fn lemma_consistent_hypothesis_is_terminal(resolver: FlowResolver, signs: FlowSigns)
    requires
        resolver.hypothesis == FlowDirection::spec_from_signs(signs),
    ensures
        resolver.spec_step(signs) == FlowStep::Converged,
{
}

/// Law: the adjustment budget bounds the resolution.  A retry is only ever
/// answered while fewer than `ALLOWED_FLOW_UPDATES` adjustments have been
/// made, and each retry makes one more, so a well-formed resolver solves
/// the system at most `ALLOWED_FLOW_UPDATES + 1` times before it either
/// converges or diverges.
pub proof fn lemma_budget_bounds_retries(resolver: FlowResolver, signs: FlowSigns)
    requires
        resolver.wf(),
    ensures
        resolver.spec_step(signs) == FlowStep::Retry ==> resolver.updates < ALLOWED_FLOW_UPDATES,
        resolver.updates == ALLOWED_FLOW_UPDATES ==> resolver.spec_step(signs) != FlowStep::Retry,
{
}

/// The steps a resolver answers over a whole sequence of observed signs,
/// each observation acting on the state the previous one left.
pub open spec fn spec_run(resolver: FlowResolver, signs: Seq<FlowSigns>) -> Seq<FlowStep>
    decreases signs.len(),
{
    if signs.len() == 0 {
        Seq::empty()
    } else {
        seq![resolver.spec_step(signs.first())] + spec_run(
            resolver.spec_after(signs.first()),
            signs.drop_first(),
        )
    }
}

/// How many of a run's answers were retries.
pub open spec fn count_retries(steps: Seq<FlowStep>) -> int
    decreases steps.len(),
{
    if steps.len() == 0 {
        0
    } else {
        (if steps.first() == FlowStep::Retry {
            1int
        } else {
            0int
        }) + count_retries(steps.drop_first())
    }
}

/// Law: flow-direction resolution is bounded.  However many systems a
/// resolver is shown, in whatever order, it answers `Retry` at most as
/// often as it has adjustment budget left — so a resolution that solves
/// once per retry solves at most `ALLOWED_FLOW_UPDATES + 1` systems
/// before it converges or diverges.
pub proof fn lemma_resolution_is_bounded(resolver: FlowResolver, signs: Seq<FlowSigns>)
    requires
        resolver.wf(),
    ensures
        count_retries(spec_run(resolver, signs)) <= ALLOWED_FLOW_UPDATES - resolver.updates,
    decreases signs.len(),
{
    if signs.len() > 0 {
        let first_step = resolver.spec_step(signs.first());
        let next = resolver.spec_after(signs.first());
        assert(next.wf());
        lemma_resolution_is_bounded(next, signs.drop_first());
        let steps = spec_run(resolver, signs);
        let rest = spec_run(next, signs.drop_first());
        assert(steps == seq![first_step] + rest);
        assert(steps.first() == first_step);
        assert(steps.drop_first() =~= rest);
        assert(count_retries(steps) == (if first_step == FlowStep::Retry {
            1int
        } else {
            0int
        }) + count_retries(rest));
    }
}

/// The normalized specific enthalpy of each control volume's fluid.
///
/// The regenerator contributes two: its cold face, which meets the cold
/// heat exchanger, and its hot face, which meets the hot one.
#[derive(Debug, Clone, Copy)]
pub struct VolumeEnthalpies<T> {
    pub comp: T,
    pub chx: T,
    pub regen_cold: T,
    pub regen_hot: T,
    pub hhx: T,
    pub exp: T,
}

/// The enthalpy carried across each of the four interfaces.
#[derive(Debug, Clone, Copy)]
pub struct InterfaceEnthalpies<T> {
    pub ck: T,
    pub kr: T,
    pub rl: T,
    pub le: T,
}

/// Pick the upstream enthalpy at every interface for one flow-direction
/// hypothesis.
///
/// At each interface the upstream volume for positive flow is the colder
/// neighbor — compression space at `ck`, cold heat exchanger at `kr`, the
/// regenerator's hot face at `rl`, the hot heat exchanger at `le` — and
/// for negative flow the hotter one.  While a direction is unknown the
/// caller's blended value (the average of the two candidates) is carried
/// instead.
pub fn interface_enthalpies<T: Copy>(
    flow_dir: FlowDirection,
    volumes: VolumeEnthalpies<T>,
    blends: InterfaceEnthalpies<T>,
) -> (r: InterfaceEnthalpies<T>)
    ensures
        r.ck == flow_dir.ck.spec_select(volumes.comp, volumes.chx, blends.ck),
        r.kr == flow_dir.kr.spec_select(volumes.chx, volumes.regen_cold, blends.kr),
        r.rl == flow_dir.rl.spec_select(volumes.regen_hot, volumes.hhx, blends.rl),
        r.le == flow_dir.le.spec_select(volumes.hhx, volumes.exp, blends.le),
{
    InterfaceEnthalpies {
        ck: flow_dir.ck.select(volumes.comp, volumes.chx, blends.ck),
        kr: flow_dir.kr.select(volumes.chx, volumes.regen_cold, blends.kr),
        rl: flow_dir.rl.select(volumes.regen_hot, volumes.hhx, blends.rl),
        le: flow_dir.le.select(volumes.hhx, volumes.exp, blends.le),
    }
}

/// Selects QR decomposition as the linear-solve strategy for the 10x10
/// state-equation system: a fallback for ill-conditioned systems.
#[derive(Debug, Clone, Copy, PartialEq, Eq, Structural)]
pub struct QR;

/// Selects LU decomposition with partial pivoting: the default strategy,
/// chosen for speed on well-conditioned systems.
#[derive(Debug, Clone, Copy, PartialEq, Eq, Structural)]
pub struct LU;

/// Selects Cholesky decomposition, applicable when the system is symmetric
/// positive-definite.
#[derive(Debug, Clone, Copy, PartialEq, Eq, Structural)]
pub struct Cholesky;

/// Selects singular-value decomposition with a small epsilon threshold:
/// the most robust fallback for nearly singular systems.
#[derive(Debug, Clone, Copy, PartialEq, Eq, Structural)]
pub struct SvdDefault;

} // verus!
