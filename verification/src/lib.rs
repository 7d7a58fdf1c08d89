//! Discrete-time market-simulation engine: stochastic price trajectories,
//! parameter-sweep expansion into concrete run configurations, and a
//! fixed-order scheduling loop that drives a set of agents against a
//! deterministic in-process ledger model.

pub mod agents;
pub mod dynamic_weights;
pub mod errors;
pub mod fixed;
pub mod forms;
pub mod ledger;
pub mod portfolio;
pub mod recorder;
pub mod rng;
pub mod rpc;
pub mod runs;
pub mod scheduler;
pub mod stable_portfolio;
pub mod sweep;
pub mod text;
pub mod trajectory;
