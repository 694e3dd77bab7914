//! Shared vocabulary of an engine run: errors, tolerances, iteration
//! budgets, and the bounded loop-control machine that both fixed-point
//! loops of the solver answer to.

use vstd::prelude::*;

verus! {

/// Number of iterations either loop tries by default before failing.
pub const DEFAULT_MAX_ITERS: u32 = 20;

/// An error that can occur during an engine run.
///
/// `InnerLoop` reports that the steady-state search exhausted its iteration
/// budget without the cycle closing on itself; `OuterLoop` reports that the
/// thermal-balance iteration exhausted its budget without the engine state
/// settling.
#[derive(Debug, Clone, Copy, PartialEq, Eq, Structural)]
pub enum RunError {
    InnerLoop,
    OuterLoop,
}

/// Number of iterations to try before failing.
#[derive(Debug, Clone, Copy, PartialEq, Eq, Structural)]
pub struct MaxIters {
    pub inner: usize,
    pub outer: usize,
}

/// Inputs to an engine run.
#[derive(Debug, Clone, Copy)]
pub struct RunInputs<T> {
    pub pres_zero: T,
    pub temp_sink: T,
    pub temp_source: T,
}

/// Settings for an engine run.
#[derive(Debug, Clone, Copy)]
pub struct RunSettings<T> {
    pub resolution: u32,
    pub loop_tol: LoopTolerance<T>,
    pub ode_tol: OdeTolerance<T>,
    pub max_iters: MaxIters,
}

/// Tolerances related to the two iteration loops.
#[derive(Debug, Clone, Copy)]
pub struct LoopTolerance<T> {
    pub inner: ConvergenceTolerance<T>,
    pub outer: ConvergenceTolerance<T>,
}

/// Tolerances used by the ODE integrator.
#[derive(Debug, Clone, Copy)]
pub struct OdeTolerance<T> {
    pub abs: T,
    pub rel: T,
}

/// Tolerances related to convergence between subsequent values.
///
/// A change from `old` to `new` counts as converged only when both the
/// absolute change is below `abs` and the relative change is below `rel`;
/// the host application evaluates that test on its scalar type.
#[derive(Debug, Clone, Copy)]
pub struct ConvergenceTolerance<T> {
    pub abs: T,
    pub rel: T,
}

/// Parasitic power loss in a component.
///
/// Each kind of power has units of watts (W).
#[derive(Debug, Clone, Copy)]
pub struct ParasiticPower<T> {
    pub thermal: T,
    pub mechanical: T,
    pub electrical: T,
}

/// Average conditions in a heat exchanger.
#[allow(non_snake_case)]
#[derive(Debug, Clone, Copy)]
pub struct HeatExchanger<T> {
    pub temp: T,
    pub pres: T,
    pub dens: T,
    pub cp: T,
    pub m_dot: T,
    pub Q_dot: T,
}

/// Solver configuration: one block per loop plus the integrator.
#[derive(Debug, Clone, Copy)]
pub struct SolverConfig<T> {
    pub inner_loop: InnerLoopConfig<T>,
    pub outer_loop: OuterLoopConfig<T>,
    pub ode: OdeConfig<T>,
}

/// Solver configuration in the layout used by earlier front ends.
#[derive(Debug, Clone, Copy)]
pub struct LegacySolverConfig<T> {
    pub inner_loop_tolerance: ToleranceConfig<T>,
    pub outer_loop_tolerance: ToleranceConfig<T>,
    pub ode_tolerance: ToleranceConfig<T>,
    pub ode_solver: LegacyOdeSolver,
    pub time_resolution: u32,
}

/// The ODE steppers that earlier front ends could name.
#[derive(Debug, Clone, Copy, PartialEq, Eq, Structural)]
pub enum LegacyOdeSolver {
    Ode45,
}

/// Configuration of the inner (steady-state) loop.
#[derive(Debug, Clone, Copy)]
pub struct InnerLoopConfig<T> {
    pub tolerance: ToleranceConfig<T>,
    pub max_iterations: u32,
}

/// Configuration of the outer (thermal-balance) loop.
#[derive(Debug, Clone, Copy)]
pub struct OuterLoopConfig<T> {
    pub tolerance: ToleranceConfig<T>,
    pub max_iterations: u32,
}

/// Configuration of the cycle integrator.
#[derive(Debug, Clone, Copy)]
pub struct OdeConfig<T> {
    pub tolerance: ToleranceConfig<T>,
    pub num_timesteps: u32,
}

/// An absolute and a relative tolerance, as configured.
#[derive(Debug, Clone, Copy)]
pub struct ToleranceConfig<T> {
    pub abs: T,
    pub rel: T,
}

/// Boundary conditions, as configured.
#[derive(Debug, Clone, Copy)]
pub struct ConditionsConfig<T> {
    pub temp_sink: T,
    pub temp_source: T,
    pub pres_zero: T,
}

/// Boundary conditions in the layout used by earlier front ends.
#[allow(non_snake_case)]
#[derive(Debug, Clone, Copy)]
pub struct LegacyConditionsConfig<T> {
    pub T_cold: T,
    pub T_hot: T,
    pub P_0: T,
}

/// Materials that detailed component models can be built from.
#[derive(Debug, Clone, Copy, PartialEq, Eq, Structural)]
pub enum Material {
    SS304,
    Multimet,
    StainlessSteel,
}

/// One step of a bounded fixed-point loop.
#[derive(Debug, Clone, Copy, PartialEq, Eq, Structural)]
pub enum LoopStep {
    /// The round converged: the loop is done and its result stands.
    Finish,
    /// The round did not converge and budget remains: substitute and go on.
    Continue,
    /// The round did not converge and the budget is spent: the run fails.
    Fail,
}

/// The iteration budget of a bounded fixed-point loop.
///
/// Both fixed-point loops of the solver share this shape.  The inner
/// steady-state loop integrates a probe cycle and substitutes end
/// conditions until the boundary temperatures close on themselves; the
/// outer thermal-balance loop re-derives the engine state from a converged
/// trajectory until the update is within tolerance.  Each round's work is
/// numeric and happens in the host application, which then reports here
/// whether the round converged; this type decides what follows and holds
/// the loop to its budget.
#[derive(Debug, Clone, Copy, PartialEq, Eq, Structural)]
pub struct LoopControl {
    /// Rounds completed so far.
    pub iters: usize,
    /// Rounds allowed in all.
    pub max_iters: usize,
}

impl LoopControl {
    /// Start a loop that may run up to `max_iters` rounds.
    pub fn new(max_iters: usize) -> (r: Self)
        ensures
            r.iters == 0,
            r.max_iters == max_iters,
    {
        LoopControl { iters: 0, max_iters }
    }

    /// Whether the budget is already spent.  A loop given no budget at
    /// all is exhausted before its first round: it fails without doing
    /// any work, as the caller's round count promises.
    pub open spec fn spec_exhausted(self) -> bool {
        self.iters >= self.max_iters
    }

    /// Return `true` if no further round may run.
    pub fn exhausted(&self) -> (r: bool)
        ensures
            r == self.spec_exhausted(),
    {
        self.iters >= self.max_iters
    }

    /// What follows a round that did (or did not) converge.
    pub open spec fn spec_next(self, converged: bool) -> LoopStep {
        if converged {
            LoopStep::Finish
        } else if self.iters + 1 >= self.max_iters {
            LoopStep::Fail
        } else {
            LoopStep::Continue
        }
    }

    /// The loop state after one round: a continuing round spends one
    /// round of budget; a round that finishes or fails the loop leaves
    /// the state as it is, since no further round may run either way.
    pub open spec fn spec_after(self, converged: bool) -> LoopControl {
        if self.spec_next(converged) == LoopStep::Continue {
            LoopControl { iters: (self.iters + 1) as usize, max_iters: self.max_iters }
        } else {
            self
        }
    }

    /// Account for one completed round.
    ///
    /// A converged round finishes the loop — and only a converged round
    /// does.  An unconverged round either continues, spending one round of
    /// budget, or fails the loop when that round was the last one allowed.
    pub fn next(&mut self, converged: bool) -> (r: LoopStep)
        requires
            !old(self).spec_exhausted(),
        ensures
            r == old(self).spec_next(converged),
            r is Finish <==> converged,
            *final(self) == old(self).spec_after(converged),
            final(self).max_iters == old(self).max_iters,
            r is Continue ==> final(self).iters == old(self).iters + 1,
            !(r is Continue) ==> final(self).iters == old(self).iters,
            r is Fail ==> old(self).iters + 1 == old(self).max_iters,
    {
        if converged {
            LoopStep::Finish
        } else if self.iters + 1 >= self.max_iters {
            LoopStep::Fail
        } else {
            self.iters = self.iters + 1;
            LoopStep::Continue
        }
    }
}

/// The steps a loop answers over a whole sequence of round outcomes,
/// each round acting on the state the previous one left.
pub open spec fn spec_rounds(control: LoopControl, outcomes: Seq<bool>) -> Seq<LoopStep>
    decreases outcomes.len(),
{
    if outcomes.len() == 0 {
        Seq::empty()
    } else {
        seq![control.spec_next(outcomes.first())] + spec_rounds(
            control.spec_after(outcomes.first()),
            outcomes.drop_first(),
        )
    }
}

/// How many of a run's answers told the loop to go on.
pub open spec fn count_continues(steps: Seq<LoopStep>) -> int
    decreases steps.len(),
{
    if steps.len() == 0 {
        0
    } else {
        (if steps.first() == LoopStep::Continue {
            1int
        } else {
            0int
        }) + count_continues(steps.drop_first())
    }
}

/// Law: the iteration budget is a hard bound.  However the rounds turn
/// out, a loop answers `Continue` fewer times than it has rounds of
/// budget left: once they are spent, an unconverged round is `Fail`,
/// never `Continue`, so neither fixed-point loop can run unboundedly.
pub proof fn lemma_loop_budget_is_hard(control: LoopControl, outcomes: Seq<bool>)
    ensures
        count_continues(spec_rounds(control, outcomes)) <= if control.iters < control.max_iters {
            control.max_iters - control.iters - 1
        } else {
            0
        },
    decreases outcomes.len(),
{
    if outcomes.len() > 0 {
        let first_step = control.spec_next(outcomes.first());
        let next = control.spec_after(outcomes.first());
        lemma_loop_budget_is_hard(next, outcomes.drop_first());
        let steps = spec_rounds(control, outcomes);
        let rest = spec_rounds(next, outcomes.drop_first());
        assert(steps == seq![first_step] + rest);
        assert(steps.first() == first_step);
        assert(steps.drop_first() =~= rest);
        assert(count_continues(steps) == (if first_step == LoopStep::Continue {
            1int
        } else {
            0int
        }) + count_continues(rest));
    }
}

/// A run answers every round it is shown: one step per outcome.
pub proof fn lemma_rounds_len(control: LoopControl, outcomes: Seq<bool>)
    ensures
        spec_rounds(control, outcomes).len() == outcomes.len(),
    decreases outcomes.len(),
{
    if outcomes.len() > 0 {
        lemma_rounds_len(control.spec_after(outcomes.first()), outcomes.drop_first());
    }
}

/// Law: a loop finishes exactly on the rounds that converged.  Whatever
/// state the budget is in, round `i` of a run answers `Finish` when and
/// only when round `i` converged — an unconverged round can only continue
/// or fail, and a converged one can do nothing else.
pub proof fn lemma_finish_exactly_on_convergence(
    control: LoopControl,
    outcomes: Seq<bool>,
    i: int,
)
    requires
        0 <= i < outcomes.len(),
    ensures
        spec_rounds(control, outcomes)[i] is Finish <==> outcomes[i],
    decreases outcomes.len(),
{
    let steps = spec_rounds(control, outcomes);
    let next = control.spec_after(outcomes.first());
    let rest = spec_rounds(next, outcomes.drop_first());
    assert(steps == seq![control.spec_next(outcomes.first())] + rest);
    if i > 0 {
        lemma_finish_exactly_on_convergence(next, outcomes.drop_first(), i - 1);
        lemma_rounds_len(next, outcomes.drop_first());
        assert(steps[i] == rest[i - 1]);
        assert(outcomes[i] == outcomes.drop_first()[i - 1]);
    }
}

impl<T: Copy> OdeTolerance<T> {
    /// Pack an absolute and a relative integrator tolerance.
    pub fn new(abs: T, rel: T) -> (r: Self)
        ensures
            r.abs == abs,
            r.rel == rel,
    {
        Self { abs, rel }
    }
}

impl<T: Copy> ConvergenceTolerance<T> {
    /// Pack an absolute and a relative convergence tolerance.
    pub fn new(abs: T, rel: T) -> (r: Self)
        ensures
            r.abs == abs,
            r.rel == rel,
    {
        Self { abs, rel }
    }

    /// Adopt a configured tolerance unchanged.
    pub fn from(config: ToleranceConfig<T>) -> (r: Self)
        ensures
            r.abs == config.abs,
            r.rel == config.rel,
    {
        Self { abs: config.abs, rel: config.rel }
    }
}

impl<T: Copy> RunSettings<T> {
    /// Flatten a `SolverConfig` into run settings.
    ///
    /// The report resolution comes from the integrator block, each loop keeps
    /// its own tolerance, and the two iteration caps are carried over.
    pub fn from(config: SolverConfig<T>) -> (r: Self)
        ensures
            r.resolution == config.ode.num_timesteps,
            r.loop_tol.inner.abs == config.inner_loop.tolerance.abs,
            r.loop_tol.inner.rel == config.inner_loop.tolerance.rel,
            r.loop_tol.outer.abs == config.outer_loop.tolerance.abs,
            r.loop_tol.outer.rel == config.outer_loop.tolerance.rel,
            r.ode_tol.abs == config.ode.tolerance.abs,
            r.ode_tol.rel == config.ode.tolerance.rel,
            r.max_iters.inner == config.inner_loop.max_iterations as usize,
            r.max_iters.outer == config.outer_loop.max_iterations as usize,
    {
        Self {
            resolution: config.ode.num_timesteps,
            loop_tol: LoopTolerance {
                inner: ConvergenceTolerance::from(config.inner_loop.tolerance),
                outer: ConvergenceTolerance::from(config.outer_loop.tolerance),
            },
            ode_tol: OdeTolerance {
                abs: config.ode.tolerance.abs,
                rel: config.ode.tolerance.rel,
            },
            max_iters: MaxIters {
                inner: config.inner_loop.max_iterations as usize,
                outer: config.outer_loop.max_iterations as usize,
            },
        }
    }
}

impl<T: Copy> SolverConfig<T> {
    /// Rebuild a `SolverConfig` from the legacy layout.
    ///
    /// The legacy layout carries no iteration caps, so both loops receive
    /// `DEFAULT_MAX_ITERS`.
    pub fn from(config: LegacySolverConfig<T>) -> (r: Self)
        ensures
            r.inner_loop.tolerance == config.inner_loop_tolerance,
            r.inner_loop.max_iterations == DEFAULT_MAX_ITERS,
            r.outer_loop.tolerance == config.outer_loop_tolerance,
            r.outer_loop.max_iterations == DEFAULT_MAX_ITERS,
            r.ode.tolerance == config.ode_tolerance,
            r.ode.num_timesteps == config.time_resolution,
    {
        Self {
            inner_loop: InnerLoopConfig {
                tolerance: config.inner_loop_tolerance,
                max_iterations: DEFAULT_MAX_ITERS,
            },
            outer_loop: OuterLoopConfig {
                tolerance: config.outer_loop_tolerance,
                max_iterations: DEFAULT_MAX_ITERS,
            },
            ode: OdeConfig {
                tolerance: config.ode_tolerance,
                num_timesteps: config.time_resolution,
            },
        }
    }
}

impl<T: Copy> RunInputs<T> {
    /// Adopt configured boundary conditions unchanged.
    pub fn from(config: ConditionsConfig<T>) -> (r: Self)
        ensures
            r.pres_zero == config.pres_zero,
            r.temp_sink == config.temp_sink,
            r.temp_source == config.temp_source,
    {
        Self {
            pres_zero: config.pres_zero,
            temp_sink: config.temp_sink,
            temp_source: config.temp_source,
        }
    }
}

impl<T: Copy> ConditionsConfig<T> {
    /// Rebuild boundary conditions from the legacy layout: the cold side is
    /// the sink, the hot side the source, `P_0` the pressure at time zero.
    pub fn from(config: LegacyConditionsConfig<T>) -> (r: Self)
        ensures
            r.temp_sink == config.T_cold,
            r.temp_source == config.T_hot,
            r.pres_zero == config.P_0,
    {
        Self {
            temp_sink: config.T_cold,
            temp_source: config.T_hot,
            pres_zero: config.P_0,
        }
    }
}

} // verus!
