use sett::engine::state::Values as EngineValues;
use sett::state_equations::integrator::{Integration, Point};
use sett::state_equations::{Conditions, Solution, Values};

fn point(time: f64, p: f64, t_c: f64, t_e: f64) -> Point<f64> {
    Point { time, conditions: Conditions { P: p, T_c: t_c, T_e: t_e } }
}

fn sample(i: f64) -> Values<f64> {
    Values {
        time: i,
        conditions: Conditions { P: 100.0 + i, T_c: 200.0 + i, T_e: 300.0 + i },
        solution: Solution {
            m_dot_ck: 1.0 + i,
            m_dot_kr: 2.0 + i,
            m_dot_rl: 3.0 + i,
            m_dot_le: 4.0 + i,
            Q_dot_k: 5.0 + i,
            Q_dot_r: 6.0 + i,
            Q_dot_l: 7.0 + i,
            dTc_dt: 8.0 + i,
            dTe_dt: 9.0 + i,
            dP_dt: 10.0 + i,
        },
    }
}

#[test]
fn integration_needs_at_least_one_sample() {
    let empty: Vec<Point<f64>> = Vec::new();
    assert!(Integration::new(empty).is_none());
}

#[test]
fn integration_reports_its_boundaries() {
    let points = vec![
        point(0.0, 10e6, 400.0, 600.0),
        point(0.25, 10.2e6, 401.5, 598.0),
        point(0.5, 9.9e6, 400.9, 601.2),
    ];
    let integration = Integration::new(points).expect("samples are not empty");
    assert_eq!(integration.len(), 3);
    assert_eq!(integration.final_time(), 0.5);
    assert_eq!(integration.final_conditions().T_c, 400.9);
    assert_eq!(integration.final_conditions().T_e, 601.2);
    assert_eq!(integration.initial_conditions().P, 10e6);
    assert_eq!(integration.point_at(1).time, 0.25);
}

#[test]
fn integration_gives_its_samples_back() {
    let points = vec![point(0.0, 1.0, 2.0, 3.0), point(1.0, 4.0, 5.0, 6.0)];
    let integration = Integration::new(points).expect("samples are not empty");
    let back = integration.into_points();
    assert_eq!(back.len(), 2);
    assert_eq!(back[1].conditions.P, 4.0);
}

#[test]
fn values_from_reshapes_the_trajectory() {
    let rows = vec![sample(0.0), sample(0.5), sample(1.0)];
    let values = EngineValues::from(rows);
    assert_eq!(values.time, vec![0.0, 0.5, 1.0]);
    assert_eq!(values.P, vec![100.0, 100.5, 101.0]);
    assert_eq!(values.T_c, vec![200.0, 200.5, 201.0]);
    assert_eq!(values.T_e, vec![300.0, 300.5, 301.0]);
    assert_eq!(values.m_dot_ck, vec![1.0, 1.5, 2.0]);
    assert_eq!(values.m_dot_kr, vec![2.0, 2.5, 3.0]);
    assert_eq!(values.m_dot_rl, vec![3.0, 3.5, 4.0]);
    assert_eq!(values.m_dot_le, vec![4.0, 4.5, 5.0]);
    assert_eq!(values.Q_dot_k, vec![5.0, 5.5, 6.0]);
    assert_eq!(values.Q_dot_r, vec![6.0, 6.5, 7.0]);
    assert_eq!(values.Q_dot_l, vec![7.0, 7.5, 8.0]);
}

#[test]
fn values_final_time_is_the_last_sample() {
    let rows = vec![sample(0.0), sample(0.5)];
    let values = EngineValues::from(rows);
    assert_eq!(values.final_time(), 0.5);
}
