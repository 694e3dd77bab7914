use sett::state_equations::flow_direction::{Direction, FlowDirection, FlowSigns};
use sett::state_equations::solver::{
    interface_enthalpies, FlowResolver, FlowStep, InterfaceEnthalpies, VolumeEnthalpies,
    ALLOWED_FLOW_UPDATES,
};

fn signs(ck: bool, kr: bool, rl: bool, le: bool) -> FlowSigns {
    FlowSigns { ck_negative: ck, kr_negative: kr, rl_negative: rl, le_negative: le }
}

#[test]
fn default_flow_direction_is_all_unknown() {
    let d = FlowDirection::default();
    assert_eq!(d.ck, Direction::Unknown);
    assert_eq!(d.kr, Direction::Unknown);
    assert_eq!(d.rl, Direction::Unknown);
    assert_eq!(d.le, Direction::Unknown);
}

#[test]
fn zero_rate_counts_as_positive() {
    // A mass-flow rate of exactly zero is not negative, so by convention
    // it resolves to a positive direction.
    assert_eq!(Direction::from_sign(false), Direction::Positive);
    assert_eq!(Direction::from_sign(true), Direction::Negative);
}

#[test]
fn from_signs_maps_each_interface() {
    let d = FlowDirection::from_signs(signs(false, true, false, true));
    assert_eq!(d.ck, Direction::Positive);
    assert_eq!(d.kr, Direction::Negative);
    assert_eq!(d.rl, Direction::Positive);
    assert_eq!(d.le, Direction::Negative);
}

#[test]
fn select_picks_the_upstream_value() {
    let positive = 101.5_f64;
    let negative = 99.5_f64;
    let blended = 0.5 * (positive + negative);
    assert_eq!(Direction::Positive.select(positive, negative, blended), 101.5);
    assert_eq!(Direction::Negative.select(positive, negative, blended), 99.5);
    assert_eq!(Direction::Unknown.select(positive, negative, blended), 100.5);
}

#[test]
fn interfaces_carry_the_upstream_enthalpy() {
    let volumes = VolumeEnthalpies {
        comp: 1.0_f64,
        chx: 2.0,
        regen_cold: 3.0,
        regen_hot: 4.0,
        hhx: 5.0,
        exp: 6.0,
    };
    let blends = InterfaceEnthalpies { ck: 1.5_f64, kr: 2.5, rl: 4.5, le: 5.5 };
    let flow_dir = FlowDirection {
        ck: Direction::Positive,
        kr: Direction::Negative,
        rl: Direction::Unknown,
        le: Direction::Positive,
    };
    let h = interface_enthalpies(flow_dir, volumes, blends);
    assert_eq!(h.ck, 1.0); // positive flow: compression space is upstream
    assert_eq!(h.kr, 3.0); // negative flow: the regenerator's cold face is upstream
    assert_eq!(h.rl, 4.5); // unknown: the blended value is carried
    assert_eq!(h.le, 5.0); // positive flow: the hot heat exchanger is upstream
}

#[test]
fn consistent_hint_converges_in_one_round() {
    // A hypothesis already consistent with its solution's signs is
    // terminal: resolution ends on the first observation.
    let s = signs(true, false, true, false);
    let hint = FlowDirection::from_signs(s);
    let mut resolver = FlowResolver::new(hint);
    assert_eq!(resolver.observe(s), FlowStep::Converged);
    assert_eq!(resolver.hypothesis, hint);
    assert_eq!(resolver.updates, 0);
}

#[test]
fn cold_start_retries_then_converges() {
    // From all-unknown the first solve always disagrees (solved signs are
    // never unknown); if the refreshed hypothesis reproduces itself the
    // second observation is terminal.
    let s = signs(false, true, false, false);
    let mut resolver = FlowResolver::new(FlowDirection::default());
    assert_eq!(resolver.observe(s), FlowStep::Retry);
    assert_eq!(resolver.updates, 1);
    assert_eq!(resolver.observe(s), FlowStep::Converged);
    assert_eq!(resolver.hypothesis, FlowDirection::from_signs(s));
}

#[test]
fn oscillating_signs_diverge_once_budget_is_spent() {
    // A hint that is wrong at every interface, with solutions that keep
    // flipping, must fail after the three allowed adjustments rather than
    // loop forever: the fourth inconsistent solve reports divergence.
    let a = signs(false, false, false, false);
    let b = signs(true, true, true, true);
    let mut resolver = FlowResolver::new(FlowDirection::from_signs(b));
    assert_eq!(resolver.observe(a), FlowStep::Retry);
    assert_eq!(resolver.observe(b), FlowStep::Retry);
    assert_eq!(resolver.observe(a), FlowStep::Retry);
    assert_eq!(resolver.updates, ALLOWED_FLOW_UPDATES);
    assert_eq!(resolver.observe(b), FlowStep::Diverged);
}

#[test]
fn adjustment_budget_is_three() {
    assert_eq!(ALLOWED_FLOW_UPDATES, 3);
}
