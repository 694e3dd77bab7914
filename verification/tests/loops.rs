use sett::state_equations::cycle::{initial_conditions, next_initial_conditions, SteadyStateInputs};
use sett::state_equations::Conditions;
use sett::types::{ConvergenceTolerance, LoopControl, LoopStep, OdeTolerance};

#[test]
fn loop_finishes_exactly_on_convergence() {
    let mut control = LoopControl::new(5);
    assert_eq!(control.next(false), LoopStep::Continue);
    assert_eq!(control.next(false), LoopStep::Continue);
    assert_eq!(control.next(true), LoopStep::Finish);
    assert_eq!(control.iters, 2);
}

#[test]
fn loop_fails_when_last_round_does_not_converge() {
    let mut control = LoopControl::new(1);
    assert!(!control.exhausted());
    assert_eq!(control.next(false), LoopStep::Fail);
}

#[test]
fn loop_spends_budget_only_while_continuing() {
    let mut control = LoopControl::new(3);
    assert_eq!(control.next(false), LoopStep::Continue);
    assert_eq!(control.next(false), LoopStep::Continue);
    assert_eq!(control.iters, 2);
    assert_eq!(control.next(false), LoopStep::Fail);
    assert_eq!(control.iters, 2);
}

#[test]
fn zero_budget_is_exhausted_before_any_round() {
    let control = LoopControl::new(0);
    assert!(control.exhausted());
}

#[test]
fn last_round_may_still_converge() {
    let mut control = LoopControl::new(2);
    assert_eq!(control.next(false), LoopStep::Continue);
    assert_eq!(control.next(true), LoopStep::Finish);
}

#[test]
fn substitution_resets_pressure_and_carries_temperatures() {
    // Successive substitution: the end-of-cycle temperatures seed the next
    // round, but the pressure goes back to the fixed time-zero value.
    let end_of_cycle = Conditions { P: 9.7e6_f64, T_c: 312.4, T_e: 489.1 };
    let next = next_initial_conditions(10e6_f64, end_of_cycle);
    assert_eq!(next.P, 10e6);
    assert_eq!(next.T_c, 312.4);
    assert_eq!(next.T_e, 489.1);
}

#[test]
fn first_round_starts_from_the_hints() {
    let inputs = SteadyStateInputs {
        pres_zero: 10e6_f64,
        temp_comp_hint: 340.0,
        temp_exp_hint: 800.0,
        num_points: 30,
        ode_tol: OdeTolerance::new(1e-6, 1e-6),
        conv_tol: ConvergenceTolerance::new(1e-3, 1e-6),
        max_iters: 20,
    };
    let ic = initial_conditions(&inputs);
    assert_eq!(ic.P, 10e6);
    assert_eq!(ic.T_c, 340.0);
    assert_eq!(ic.T_e, 800.0);
}
