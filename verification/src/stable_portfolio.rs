//! The stable-portfolio simulation.
//!
//! Drives a weighted pool holding stable assets, whose external price
//! follows a mean-reverting process — the natural model for the price
//! of stable tokens. The step ordering is the engine's fixed tick
//! order: clock, new price, arbitrage, rebalance on cadence, record.

use vstd::prelude::*;
use crate::errors::SimulationError;
use crate::runs;
use crate::runs::RunOutput;
use crate::sweep::SimulationConfig;

verus! {

/// Run one stable-portfolio simulation from a direct configuration. The
/// configuration must select the mean-reverting process block; a
/// missing or wrong process block, an empty or backward time grid, or a
/// zero rebalance cadence is a configuration error, reported before any
/// simulation work. A seeded run's whole outcome is pinned to the
/// configuration's trace; an unseeded run's outcome is the trace of
/// some freshly drawn seed.
pub fn run(config: &SimulationConfig<i64>) -> (r: Result<RunOutput, SimulationError>)
    ensures
        r is Ok <==> (config.ou is Some && runs::spec_runnable(*config)),
        r is Err ==> r->Err_0 == SimulationError::Configuration,
        r is Ok ==> ({
            &&& r->Ok_0.ticks == config.trajectory.num_steps
            &&& match config.trajectory.seed {
                Some(s) => runs::spec_output_matches(*config, s, r->Ok_0),
                None => exists|s: u64| runs::spec_output_matches(*config, s, r->Ok_0),
            }
        }),
{
    match &config.ou {
        Some(_) => runs::execute(config),
        None => Err(SimulationError::Configuration),
    }
}

} // verus!
