use sett::engine::state::{HeatFlows, MassFlows, Pressure};
use sett::types::ParasiticPower;
use sett::ws::rhombic_drive::{Geometry, RhombicDrive};
use sett::ws::Parasitics;
use sett::{chx, hhx, regen};

fn no_losses() -> ParasiticPower<f64> {
    ParasiticPower { thermal: 0.0, mechanical: 0.0, electrical: 0.0 }
}

#[test]
fn chx_fixed_approach_reports_what_it_was_built_from() {
    let parasitics = ParasiticPower { thermal: 1.0, mechanical: 2.0, electrical: 3.0 };
    let hx = chx::FixedApproach::new(4.0e-5_f64, 0.5, 40.0, parasitics);
    assert_eq!(hx.volume(), 4.0e-5);
    assert_eq!(hx.hydraulic_resistance(), 0.5);
    assert_eq!(hx.approach(), 40.0);
    assert_eq!(hx.initial_approach(), 40.0);
    assert_eq!(hx.parasitics().thermal, 1.0);
    assert_eq!(hx.parasitics().mechanical, 2.0);
    assert_eq!(hx.parasitics().electrical, 3.0);
}

#[test]
fn chx_fixed_conductance_reports_what_it_was_built_from() {
    let hx = chx::FixedConductance::new(4.0e-5_f64, 0.0, 400.0, no_losses());
    assert_eq!(hx.volume(), 4.0e-5);
    assert_eq!(hx.conductance(), 400.0);
    assert_eq!(hx.hydraulic_resistance(), 0.0);
}

#[test]
fn hhx_fixed_approach_reports_what_it_was_built_from() {
    let hx = hhx::FixedApproach::new(1.0e-4_f64, 0.0, 100.0, no_losses());
    assert_eq!(hx.volume(), 1.0e-4);
    assert_eq!(hx.approach(), 100.0);
    assert_eq!(hx.initial_approach(), 100.0);
}

#[test]
fn hhx_fixed_conductance_reports_what_it_was_built_from() {
    let hx = hhx::FixedConductance::new(1.0e-4_f64, 0.0, 100.0, no_losses());
    assert_eq!(hx.volume(), 1.0e-4);
    assert_eq!(hx.conductance(), 100.0);
}

#[test]
fn regen_fixed_approach_reports_what_it_was_built_from() {
    let r = regen::FixedApproach::new(1.0e-4_f64, 0.0, 10.0, no_losses());
    assert_eq!(r.volume(), 1.0e-4);
    assert_eq!(r.approach(), 10.0);
    assert_eq!(r.initial_approach(), 10.0);
}

#[test]
fn regen_fixed_conductance_reports_what_it_was_built_from() {
    let r = regen::FixedConductance::new(1.0e-4_f64, 0.0, 70000.0, no_losses());
    assert_eq!(r.volume(), 1.0e-4);
    assert_eq!(r.conductance(), 70000.0);
}

#[test]
fn rhombic_drive_reports_what_it_was_built_from() {
    let geometry = Geometry {
        eccentricity: 0.02065_f64,
        r_crank: 0.01397,
        D_p: 0.0698,
        D_d: 0.0696,
        L_conn: 0.04602,
    };
    let parasitics = Parasitics { comp: no_losses(), exp: no_losses() };
    let drive = RhombicDrive::new(50.0_f64, geometry, parasitics, f64::INFINITY, f64::INFINITY,
        5.785e-6, 4.13e-6);
    assert_eq!(drive.frequency(), 50.0);
    assert_eq!(drive.geometry().r_crank, 0.01397);
    assert_eq!(drive.geometry().D_d, 0.0696);
    assert_eq!(drive.parasitics().comp.mechanical, 0.0);
}

#[test]
fn regen_imbalance_widens_one_side() {
    // A nonnegative imbalance widens the hot-side approach; a negative
    // one widens the cold side.
    let (cold, hot) = sett::engine::state::regen_approach_sides(false, 10.0_f64, 14.0);
    assert_eq!(cold, 10.0);
    assert_eq!(hot, 14.0);

    let (cold, hot) = sett::engine::state::regen_approach_sides(true, 10.0_f64, 14.0);
    assert_eq!(cold, 14.0);
    assert_eq!(hot, 10.0);
}

#[test]
fn constant_summaries_fill_every_field() {
    let p = Pressure::constant(10e6_f64);
    assert_eq!(p.avg, 10e6);
    assert_eq!(p.max, 10e6);
    assert_eq!(p.min, 10e6);
    assert_eq!(p.t_zero, 10e6);

    let m = MassFlows::constant(0.0_f64);
    assert_eq!(m.chx, 0.0);
    assert_eq!(m.regen, 0.0);
    assert_eq!(m.hhx, 0.0);

    let q = HeatFlows::constant(2.5_f64);
    assert_eq!(q.chx, 2.5);
    assert_eq!(q.regen, 2.5);
    assert_eq!(q.hhx, 2.5);
}
