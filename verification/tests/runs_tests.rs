use simulation::dynamic_weights;
use simulation::errors::SimulationError;
use simulation::ledger::EventKind;
use simulation::stable_portfolio;
use simulation::sweep::{
    BlockParameters, GBMParameters, LPParameters, OUParameters, PoolParameters, SimulationConfig,
    SimulationType, TrajectoryParameters, WeightChangerParameters,
};

fn direct_config(process: &str) -> SimulationConfig<i64> {
    SimulationConfig {
        simulation: SimulationType::DynamicWeights,
        output_directory: "analysis/run".to_string(),
        trajectory: TrajectoryParameters {
            process: process.to_string(),
            initial_price: 1_000_000,
            t_0: 0,
            t_n: 1_000_000,
            num_steps: 25,
            seed: Some(2),
        },
        gbm: None,
        ou: None,
        pool: PoolParameters {
            fee_basis_points: 30,
            weight_x: 500_000,
            target_volatility: 150_000,
        },
        lp: LPParameters { x_liquidity: 1_000_000 },
        block: BlockParameters { timestep_size: 15 },
        weight_changer: WeightChangerParameters {
            target_volatility: 150_000,
            update_frequency: 5,
        },
    }
}

#[test]
fn dynamic_weights_runs_a_gbm_config() {
    let mut config = direct_config("gbm");
    config.gbm = Some(GBMParameters { drift: 100_000, volatility: 350_000 });
    let output = dynamic_weights::run(&config).unwrap();
    assert_eq!(output.ticks, 25);
    // Every tick pushed one price to the oracle.
    let price_updates = output
        .events
        .iter()
        .filter(|e| matches!(e.event.kind, EventKind::PriceUpdate(_)))
        .count();
    assert_eq!(price_updates, 25);
    // The cadence fired on ticks 5, 10, 15, 20, 25.
    let rebalances = output
        .events
        .iter()
        .filter(|e| matches!(e.event.kind, EventKind::WeightUpdate(_)))
        .count();
    assert_eq!(rebalances, 5);
}

#[test]
fn dynamic_weights_is_reproducible_with_a_seed() {
    let mut config = direct_config("gbm");
    config.gbm = Some(GBMParameters { drift: 100_000, volatility: 350_000 });
    let first = dynamic_weights::run(&config).unwrap();
    let second = dynamic_weights::run(&config).unwrap();
    assert_eq!(first.final_oracle_price, second.final_oracle_price);
    assert_eq!(first.final_spot_price, second.final_spot_price);
    assert_eq!(first.final_weight_x, second.final_weight_x);
    assert_eq!(first.events, second.events);
}

#[test]
fn unseeded_run_still_captures_every_tick() {
    let mut config = direct_config("gbm");
    config.trajectory.seed = None;
    config.gbm = Some(GBMParameters { drift: 100_000, volatility: 350_000 });
    let output = dynamic_weights::run(&config).unwrap();
    assert_eq!(output.ticks, 25);
    // A fresh seed was drawn, but a full run happened: one price update
    // per tick, the liquidity seeding, and the cadence's rebalances.
    let price_updates = output
        .events
        .iter()
        .filter(|e| matches!(e.event.kind, EventKind::PriceUpdate(_)))
        .count();
    assert_eq!(price_updates, 25);
    let liquidity_events = output
        .events
        .iter()
        .filter(|e| matches!(e.event.kind, EventKind::LiquidityAdded(_, _)))
        .count();
    assert_eq!(liquidity_events, 1);
    let rebalances = output
        .events
        .iter()
        .filter(|e| matches!(e.event.kind, EventKind::WeightUpdate(_)))
        .count();
    assert_eq!(rebalances, 5);
}

#[test]
fn dynamic_weights_rejects_a_mean_reverting_config() {
    let mut config = direct_config("ou");
    config.ou = Some(OUParameters { mean: 1_000_000, std_dev: 350_000, theta: 100_000 });
    match dynamic_weights::run(&config) {
        Err(e) => assert_eq!(e, SimulationError::Configuration),
        Ok(_) => panic!("the dynamic-weights run accepted a mean-reverting block"),
    }
}

#[test]
fn stable_portfolio_runs_an_ou_config() {
    let mut config = direct_config("ou");
    config.simulation = SimulationType::StablePortfolio;
    config.ou = Some(OUParameters { mean: 1_000_000, std_dev: 350_000, theta: 100_000 });
    let output = stable_portfolio::run(&config).unwrap();
    assert_eq!(output.ticks, 25);
}

#[test]
fn stable_portfolio_rejects_a_drift_config() {
    let mut config = direct_config("gbm");
    config.gbm = Some(GBMParameters { drift: 100_000, volatility: 350_000 });
    match stable_portfolio::run(&config) {
        Err(e) => assert_eq!(e, SimulationError::Configuration),
        Ok(_) => panic!("the stable-portfolio run accepted a drift-diffusion block"),
    }
}

#[test]
fn zero_cadence_is_a_configuration_error() {
    let mut config = direct_config("gbm");
    config.gbm = Some(GBMParameters { drift: 100_000, volatility: 350_000 });
    config.weight_changer.update_frequency = 0;
    match dynamic_weights::run(&config) {
        Err(e) => assert_eq!(e, SimulationError::Configuration),
        Ok(_) => panic!("a zero rebalance cadence was accepted"),
    }
}

#[test]
fn sweep_runs_are_independent() {
    let mut config_a = direct_config("gbm");
    config_a.gbm = Some(GBMParameters { drift: 100_000, volatility: 350_000 });
    let mut config_b = direct_config("gbm");
    config_b.gbm = Some(GBMParameters { drift: -100_000, volatility: 350_000 });
    let a_alone = dynamic_weights::run(&config_a).unwrap();
    let b_alone = dynamic_weights::run(&config_b).unwrap();
    let a_again = dynamic_weights::run(&config_a).unwrap();
    // Running another configuration in between changes nothing.
    assert_eq!(a_alone.events, a_again.events);
    assert_ne!(a_alone.final_oracle_price, b_alone.final_oracle_price);
}
