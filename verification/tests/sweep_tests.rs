use simulation::errors::SimulationError;
use simulation::sweep::{
    BlockParameters, GBMParameters, G3mLiquidityProviderParameters, LPParameters, OUParameters,
    Param, PoolParameters, SimulationConfig, SimulationType, TrajectoryParameters,
    WeightChangerParameters,
};

fn base_meta() -> SimulationConfig<Param> {
    SimulationConfig {
        simulation: SimulationType::DynamicWeights,
        output_directory: "analysis".to_string(),
        trajectory: TrajectoryParameters {
            process: "gbm".to_string(),
            initial_price: Param::Single(1_000_000),
            t_0: 0,
            t_n: 1_000_000,
            num_steps: 100,
            seed: Some(2),
        },
        gbm: None,
        ou: None,
        pool: PoolParameters {
            fee_basis_points: 30,
            weight_x: 500_000,
            target_volatility: 150_000,
        },
        lp: LPParameters { x_liquidity: 1_000_000 },
        block: BlockParameters { timestep_size: 15 },
        weight_changer: WeightChangerParameters {
            target_volatility: 150_000,
            update_frequency: 150,
        },
    }
}

#[test]
fn read_in_static() {
    let mut config = base_meta();
    config.gbm = Some(GBMParameters {
        drift: Param::Single(100_000),
        volatility: Param::Single(350_000),
    });
    let configs = config.generate().unwrap();
    assert_eq!(configs.len(), 1);
    assert_eq!(configs[0].simulation, SimulationType::DynamicWeights);
    assert_eq!(configs[0].trajectory.process, "gbm");
    assert_eq!(configs[0].trajectory.initial_price, 1_000_000);
    assert_eq!(configs[0].trajectory.t_0, 0);
    assert_eq!(configs[0].trajectory.t_n, 1_000_000);
    assert_eq!(configs[0].trajectory.num_steps, 100);
    assert_eq!(configs[0].trajectory.seed, Some(2));
    assert_eq!(configs[0].gbm.unwrap().drift, 100_000);
    assert_eq!(configs[0].gbm.unwrap().volatility, 350_000);
    assert_eq!(configs[0].pool.fee_basis_points, 30);
    assert_eq!(configs[0].pool.weight_x, 500_000);
    assert_eq!(configs[0].pool.target_volatility, 150_000);
    assert_eq!(configs[0].lp.x_liquidity, 1_000_000);
    assert_eq!(configs[0].block.timestep_size, 15);
    assert_eq!(configs[0].weight_changer.target_volatility, 150_000);
    assert_eq!(configs[0].weight_changer.update_frequency, 150);
}

#[test]
fn read_in_sweep() {
    let mut config = base_meta();
    config.trajectory.initial_price = Param::Multiple(vec![1_000_000, 10_000_000]);
    config.gbm = Some(GBMParameters {
        drift: Param::Multiple(vec![-1_000_000, 1_000_000]),
        volatility: Param::Multiple(vec![0, 1_000_000]),
    });
    let configs = config.generate().unwrap();
    assert_eq!(configs.len(), 8);
    assert_eq!(configs[0].gbm.unwrap().drift, -1_000_000);
    assert_eq!(configs[1].gbm.unwrap().drift, -1_000_000);
    assert_eq!(configs[2].gbm.unwrap().drift, 1_000_000);
    assert_eq!(configs[3].gbm.unwrap().drift, 1_000_000);
    assert_eq!(configs[4].gbm.unwrap().drift, -1_000_000);
    assert_eq!(configs[5].gbm.unwrap().drift, -1_000_000);
    assert_eq!(configs[6].gbm.unwrap().drift, 1_000_000);
    assert_eq!(configs[7].gbm.unwrap().drift, 1_000_000);
    assert_eq!(configs[0].gbm.unwrap().volatility, 0);
    assert_eq!(configs[1].gbm.unwrap().volatility, 1_000_000);
    assert_eq!(configs[2].gbm.unwrap().volatility, 0);
    assert_eq!(configs[3].gbm.unwrap().volatility, 1_000_000);
    assert_eq!(configs[4].gbm.unwrap().volatility, 0);
    assert_eq!(configs[5].gbm.unwrap().volatility, 1_000_000);
    assert_eq!(configs[6].gbm.unwrap().volatility, 0);
    assert_eq!(configs[7].gbm.unwrap().volatility, 1_000_000);
}

#[test]
fn sweep_two_by_two_paths_cross_product() {
    let mut config = base_meta();
    config.gbm = Some(GBMParameters {
        drift: Param::Multiple(vec![-1_000_000, 1_000_000]),
        volatility: Param::Multiple(vec![0, 1_000_000]),
    });
    let configs = config.generate().unwrap();
    assert_eq!(configs.len(), 4);
    let dirs: Vec<&str> = configs.iter().map(|c| c.output_directory.as_str()).collect();
    assert!(dirs[0].contains("drift=-1.0") && dirs[0].contains("vol=0.0"));
    assert!(dirs[1].contains("drift=-1.0") && dirs[1].contains("vol=1.0"));
    assert!(dirs[2].contains("drift=1.0") && !dirs[2].contains("drift=-1.0"));
    assert!(dirs[2].contains("vol=0.0"));
    assert!(dirs[3].contains("drift=1.0") && dirs[3].contains("vol=1.0"));
    for i in 0..4 {
        assert!(dirs[i].starts_with("analysis/gbm_drift="));
        assert!(dirs[i].contains("/trajectory="));
        for j in 0..i {
            assert_ne!(dirs[i], dirs[j]);
        }
    }
}

#[test]
fn sweep_rejects_neither_block() {
    let config = base_meta();
    match config.generate() {
        Err(e) => assert_eq!(e, SimulationError::Configuration),
        Ok(_) => panic!("expansion accepted a configuration without a process block"),
    }
}

#[test]
fn sweep_rejects_both_blocks() {
    let mut config = base_meta();
    config.gbm = Some(GBMParameters {
        drift: Param::Single(100_000),
        volatility: Param::Single(350_000),
    });
    config.ou = Some(OUParameters {
        mean: Param::Single(1_000_000),
        std_dev: Param::Single(350_000),
        theta: Param::Single(100_000),
    });
    match config.generate() {
        Err(e) => assert_eq!(e, SimulationError::Configuration),
        Ok(_) => panic!("expansion accepted a configuration with both process blocks"),
    }
}

#[test]
fn ou_sweep_order_and_paths() {
    let mut config = base_meta();
    config.trajectory.process = "ou".to_string();
    config.ou = Some(OUParameters {
        mean: Param::Multiple(vec![1_000_000, 2_000_000]),
        std_dev: Param::Single(350_000),
        theta: Param::Multiple(vec![100_000, 500_000]),
    });
    let configs = config.generate().unwrap();
    assert_eq!(configs.len(), 4);
    assert_eq!(configs[0].ou.unwrap().mean, 1_000_000);
    assert_eq!(configs[0].ou.unwrap().theta, 100_000);
    assert_eq!(configs[1].ou.unwrap().mean, 1_000_000);
    assert_eq!(configs[1].ou.unwrap().theta, 500_000);
    assert_eq!(configs[2].ou.unwrap().mean, 2_000_000);
    assert_eq!(configs[3].ou.unwrap().theta, 500_000);
    assert!(configs[0].output_directory.contains("ou_mean=1.0"));
    assert!(configs[0].output_directory.contains("_std=0.35"));
    assert!(configs[0].output_directory.contains("_theta=0.1"));
    let mut dirs: Vec<String> = configs.iter().map(|c| c.output_directory.clone()).collect();
    dirs.sort();
    dirs.dedup();
    assert_eq!(dirs.len(), 4);
}

#[test]
fn g3m_parameters_product() {
    let params = G3mLiquidityProviderParameters {
        initial_x_amount: Param::Multiple(vec![1_000_000, 2_000_000]),
        initial_price: Param::Single(1_000_000),
        wx: Param::Multiple(vec![300_000, 500_000, 700_000]),
    };
    let singles = params.generate();
    assert_eq!(singles.len(), 6);
    assert_eq!(singles[0].initial_x_amount, 1_000_000);
    assert_eq!(singles[0].wx, 300_000);
    assert_eq!(singles[2].wx, 700_000);
    assert_eq!(singles[3].initial_x_amount, 2_000_000);
    assert_eq!(singles[3].wx, 300_000);
    assert_eq!(singles[5].initial_x_amount, 2_000_000);
    assert_eq!(singles[5].initial_price, 1_000_000);
    assert_eq!(singles[5].wx, 700_000);
}

#[test]
fn sweep_is_idempotent() {
    let mut config = base_meta();
    config.gbm = Some(GBMParameters {
        drift: Param::Multiple(vec![-1_000_000, 1_000_000]),
        volatility: Param::Multiple(vec![0, 1_000_000]),
    });
    let first = config.generate().unwrap();
    let second = config.generate().unwrap();
    assert_eq!(first, second);
}
