use sett::fluid::{
    Config as FluidConfig, LegacyConfig as FluidLegacy, LegacyFluidOption, LegacyIdealGasParams,
    LegacyRefPropParams, ModelConfig,
};
use sett::types::{
    ConditionsConfig, ConvergenceTolerance, InnerLoopConfig, LegacyConditionsConfig,
    LegacySolverConfig, LegacyOdeSolver, OdeConfig, OdeTolerance, OuterLoopConfig, RunInputs,
    RunSettings, SolverConfig, ToleranceConfig, DEFAULT_MAX_ITERS,
};
use sett::{hhx, regen};

#[test]
fn legacy_fluid_names_map_to_models() {
    assert_eq!(FluidLegacy::Hydrogen.into(), FluidConfig::Hydrogen(ModelConfig::Custom));
    assert_eq!(
        FluidLegacy::RealGasRefprop(LegacyRefPropParams { name: LegacyFluidOption::Hydrogen })
            .into(),
        FluidConfig::Hydrogen(ModelConfig::RefProp)
    );
    assert_eq!(
        FluidLegacy::RealGasRefprop(LegacyRefPropParams { name: LegacyFluidOption::Helium })
            .into(),
        FluidConfig::Helium(ModelConfig::RefProp)
    );
    assert_eq!(
        FluidLegacy::IdealGas(LegacyIdealGasParams { name: LegacyFluidOption::Hydrogen }).into(),
        FluidConfig::Hydrogen(ModelConfig::IdealGas)
    );
    assert_eq!(
        FluidLegacy::IdealGas(LegacyIdealGasParams { name: LegacyFluidOption::Helium }).into(),
        FluidConfig::Helium(ModelConfig::IdealGas)
    );
}

#[test]
fn legacy_hhx_config_keeps_model_and_parameters() {
    let params = hhx::fixed_approach::Config {
        vol: 1.0e-4_f64,
        DT: 100.0,
        R_hyd: 0.0,
        W_parasitic: 0.0,
        Q_parasitic: 0.0,
    };
    let converted = hhx::LegacyConfig::FixedApproach(params).into();
    match converted {
        hhx::Config::FixedApproach(p) => {
            assert_eq!(p.vol, 1.0e-4);
            assert_eq!(p.DT, 100.0);
            assert_eq!(p.R_hyd, 0.0);
        }
        _ => panic!("conversion must keep the model"),
    }
}

#[test]
fn legacy_regen_config_keeps_model_and_parameters() {
    let params = regen::fixed_approach::FixedApproachConfig {
        vol: 1.0e-4_f64,
        DT: 10.0,
        R_hyd: 0.0,
        Q_parasitic: 0.0,
    };
    let converted = regen::LegacyConfig::FixedApproach(params).into();
    match converted {
        regen::Config::FixedApproach(p) => {
            assert_eq!(p.vol, 1.0e-4);
            assert_eq!(p.DT, 10.0);
        }
        _ => panic!("conversion must keep the model"),
    }
}

#[test]
fn legacy_solver_config_gets_default_iteration_caps() {
    let legacy = LegacySolverConfig {
        inner_loop_tolerance: ToleranceConfig { abs: 1e-3_f64, rel: 1e-6 },
        outer_loop_tolerance: ToleranceConfig { abs: 1e-2, rel: 1e-5 },
        ode_tolerance: ToleranceConfig { abs: 1e-7, rel: 1e-8 },
        ode_solver: LegacyOdeSolver::Ode45,
        time_resolution: 10,
    };
    let config = SolverConfig::from(legacy);
    assert_eq!(config.inner_loop.max_iterations, DEFAULT_MAX_ITERS);
    assert_eq!(config.outer_loop.max_iterations, DEFAULT_MAX_ITERS);
    assert_eq!(config.inner_loop.tolerance.abs, 1e-3);
    assert_eq!(config.outer_loop.tolerance.rel, 1e-5);
    assert_eq!(config.ode.tolerance.abs, 1e-7);
    assert_eq!(config.ode.num_timesteps, 10);
    assert_eq!(DEFAULT_MAX_ITERS, 20);
}

#[test]
fn run_settings_flatten_the_solver_config() {
    let config = SolverConfig {
        inner_loop: InnerLoopConfig {
            tolerance: ToleranceConfig { abs: 1e-3_f64, rel: 1e-6 },
            max_iterations: 7,
        },
        outer_loop: OuterLoopConfig {
            tolerance: ToleranceConfig { abs: 1e-2, rel: 1e-5 },
            max_iterations: 9,
        },
        ode: OdeConfig { tolerance: ToleranceConfig { abs: 1e-7, rel: 1e-8 }, num_timesteps: 50 },
    };
    let settings = RunSettings::from(config);
    assert_eq!(settings.resolution, 50);
    assert_eq!(settings.loop_tol.inner.abs, 1e-3);
    assert_eq!(settings.loop_tol.inner.rel, 1e-6);
    assert_eq!(settings.loop_tol.outer.abs, 1e-2);
    assert_eq!(settings.loop_tol.outer.rel, 1e-5);
    assert_eq!(settings.ode_tol.abs, 1e-7);
    assert_eq!(settings.ode_tol.rel, 1e-8);
    assert_eq!(settings.max_iters.inner, 7);
    assert_eq!(settings.max_iters.outer, 9);
}

#[test]
fn conditions_from_legacy_rename_the_boundaries() {
    let legacy = LegacyConditionsConfig { T_cold: 300.0_f64, T_hot: 900.0, P_0: 10e6 };
    let conditions = ConditionsConfig::from(legacy);
    assert_eq!(conditions.temp_sink, 300.0);
    assert_eq!(conditions.temp_source, 900.0);
    assert_eq!(conditions.pres_zero, 10e6);

    let inputs = RunInputs::from(conditions);
    assert_eq!(inputs.temp_sink, 300.0);
    assert_eq!(inputs.temp_source, 900.0);
    assert_eq!(inputs.pres_zero, 10e6);
}

#[test]
fn tolerance_constructors_keep_their_fields() {
    let ode = OdeTolerance::new(1e-4_f64, 1e-5);
    assert_eq!(ode.abs, 1e-4);
    assert_eq!(ode.rel, 1e-5);

    let conv = ConvergenceTolerance::new(1e-3_f64, 1e-6);
    assert_eq!(conv.abs, 1e-3);
    assert_eq!(conv.rel, 1e-6);

    let from_config = ConvergenceTolerance::from(ToleranceConfig { abs: 2.0_f64, rel: 3.0 });
    assert_eq!(from_config.abs, 2.0);
    assert_eq!(from_config.rel, 3.0);
}
