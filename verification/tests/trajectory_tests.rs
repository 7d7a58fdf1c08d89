use simulation::errors::SimulationError;
use simulation::trajectory::{ProcessParameters, SamplingParameters, Trajectory};

fn ou_example() -> (ProcessParameters, SamplingParameters) {
    // Mean-reverting constants: mean 1.0, std_dev 0.35, theta 0.1 over
    // [0.0, 1.0] in one hundred steps, seed 2.
    let process = ProcessParameters::MeanReverting {
        mean: 1_000_000,
        std_dev: 350_000,
        theta: 100_000,
    };
    let grid = SamplingParameters {
        initial_price: 1_000_000,
        t_0: 0,
        t_n: 1_000_000,
        num_steps: 100,
        seed: Some(2),
    };
    (process, grid)
}

#[test]
fn mean_reverting_seeded_sampling_is_reproducible() {
    let (process, grid) = ou_example();
    let first = Trajectory::generate(&process, &grid, 1).unwrap();
    let second = Trajectory::generate(&process, &grid, 1).unwrap();
    assert_eq!(first.paths.len(), 1);
    assert_eq!(second.paths.len(), 1);
    assert_eq!(first.paths[0].len(), 101);
    assert_eq!(second.paths[0].len(), 101);
    for k in 0..101 {
        assert_eq!(first.paths[0][k], second.paths[0][k]);
    }
}

#[test]
fn drift_diffusion_seeded_sampling_is_reproducible() {
    let process = ProcessParameters::DriftDiffusion { drift: 100_000, volatility: 350_000 };
    let grid = SamplingParameters {
        initial_price: 1_000_000,
        t_0: 0,
        t_n: 1_000_000,
        num_steps: 50,
        seed: Some(7),
    };
    let first = Trajectory::generate_seeded(&process, &grid, 3, 7).unwrap();
    let second = Trajectory::generate_seeded(&process, &grid, 3, 7).unwrap();
    assert_eq!(first, second);
    assert_eq!(first.paths.len(), 3);
}

#[test]
fn trajectory_opens_at_the_initial_value() {
    let (process, grid) = ou_example();
    let trajectory = Trajectory::generate(&process, &grid, 2).unwrap();
    assert_eq!(trajectory.width(), 2);
    for path in &trajectory.paths {
        assert_eq!(path.len(), 101);
        assert_eq!(path[0], 1_000_000);
    }
}

#[test]
fn distinct_seeds_give_distinct_paths() {
    let (process, grid) = ou_example();
    let first = Trajectory::generate_seeded(&process, &grid, 1, 2).unwrap();
    let second = Trajectory::generate_seeded(&process, &grid, 1, 3).unwrap();
    assert_ne!(first.paths[0], second.paths[0]);
}

#[test]
fn unseeded_sampling_keeps_the_shape() {
    let (process, mut grid) = ou_example();
    grid.seed = None;
    let trajectory = Trajectory::generate(&process, &grid, 1).unwrap();
    assert_eq!(trajectory.paths.len(), 1);
    assert_eq!(trajectory.paths[0].len(), 101);
    assert_eq!(trajectory.paths[0][0], 1_000_000);
}

#[test]
fn zero_steps_is_a_configuration_error() {
    let (process, mut grid) = ou_example();
    grid.num_steps = 0;
    match Trajectory::generate(&process, &grid, 1) {
        Err(e) => assert_eq!(e, SimulationError::Configuration),
        Ok(_) => panic!("sampler accepted an empty grid"),
    }
}

#[test]
fn backward_span_is_a_configuration_error() {
    let (process, mut grid) = ou_example();
    grid.t_n = grid.t_0;
    match Trajectory::generate(&process, &grid, 1) {
        Err(e) => assert_eq!(e, SimulationError::Configuration),
        Ok(_) => panic!("sampler accepted a backward time span"),
    }
}

#[test]
fn zero_width_is_a_sampling_error() {
    let (process, grid) = ou_example();
    match Trajectory::generate(&process, &grid, 0) {
        Err(e) => assert_eq!(e, SimulationError::Sampling),
        Ok(_) => panic!("sampler accepted a request for no paths"),
    }
}

#[test]
fn error_labels_name_the_layer() {
    assert_eq!(SimulationError::Configuration.label(), "configuration error");
    assert_eq!(SimulationError::Sampling.label(), "sampling error");
    assert_eq!(SimulationError::Schedule.label(), "schedule error");
    assert_eq!(SimulationError::Agent.label(), "agent error");
    assert_eq!(SimulationError::Recorder.label(), "recorder error");
}
