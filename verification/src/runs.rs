//! Building and driving one simulation run from a direct configuration.
//!
//! A run samples one trajectory, builds the agent set and a fresh
//! ledger, drives the scheduler for the configured number of steps, and
//! flushes the event log.

use vstd::prelude::*;
use vstd::string::StringExecFns;
use crate::agents::{
    Arbitrageur, BlockAdmin, LiquidityProvider, PriceChanger, TokenAdmin, WeightChanger,
};
use crate::errors::SimulationError;
use crate::ledger::{EventKind, EventSource, LedgerEvent, LedgerState};
use crate::recorder::{EventRecorder, RecordedEvent, Subscription};
use crate::scheduler::{RunTrace, Simulation};
use crate::sweep::SimulationConfig;
use crate::trajectory::{
    spec_path_seed, spec_point, ProcessParameters, SamplingParameters, Trajectory,
};

verus! {

/// Token balance minted for the agents at startup.
pub const INITIAL_SUPPLY: i64 = 4_611_686_018_427_387_903;

/// Smallest pool-against-oracle price gap the arbitrageur closes.
pub const ARB_THRESHOLD: i64 = 0;

/// What one completed run hands back for analysis.
#[derive(Clone, Debug, PartialEq)]
pub struct RunOutput {
    /// The flushed event log: every subscribed state change, in order,
    /// tagged with its label and step.
    pub events: Vec<RecordedEvent>,
    /// Ticks performed.
    pub ticks: u64,
    /// Oracle price after the last tick, in fixed point.
    pub final_oracle_price: i64,
    /// Pool quote after the last tick, in fixed point.
    pub final_spot_price: i64,
    /// Pool weight on the risky asset after the last tick, in fixed point.
    pub final_weight_x: i64,
}

/// The sampling grid a direct configuration asks for.
pub open spec fn spec_sampling(config: SimulationConfig<i64>) -> SamplingParameters {
    SamplingParameters {
        initial_price: config.trajectory.initial_price,
        t_0: config.trajectory.t_0,
        t_n: config.trajectory.t_n,
        num_steps: config.trajectory.num_steps,
        seed: config.trajectory.seed,
    }
}

/// The stochastic process a direct configuration selects, given that
/// exactly one block is present.
pub open spec fn spec_process(config: SimulationConfig<i64>) -> ProcessParameters {
    if config.ou is Some {
        ProcessParameters::MeanReverting {
            mean: config.ou->Some_0.mean,
            std_dev: config.ou->Some_0.std_dev,
            theta: config.ou->Some_0.theta,
        }
    } else {
        ProcessParameters::DriftDiffusion {
            drift: config.gbm->Some_0.drift,
            volatility: config.gbm->Some_0.volatility,
        }
    }
}

/// A direct configuration the engine can run: exactly one process
/// block, a discretizable grid, and a positive rebalance cadence.
pub open spec fn spec_runnable(config: SimulationConfig<i64>) -> bool {
    &&& (config.gbm is Some) != (config.ou is Some)
    &&& spec_sampling(config).spec_valid()
    &&& config.weight_changer.update_frequency > 0
}

/// The label a run's recorder files an event under: the oracle's
/// events as "lex", the pool's as "g3m".
pub open spec fn spec_run_label(src: EventSource) -> Seq<char> {
    match src {
        EventSource::Lex => "lex"@,
        EventSource::Pool => "g3m"@,
    }
}

/// What one step's batch adds to a run's log: every event, in order,
/// under its source's label (a run subscribes to both sources).
pub open spec fn spec_run_captured(step: int, events: Seq<LedgerEvent>) -> Seq<
    (Seq<char>, int, LedgerEvent),
> {
    events.map(|i: int, e: LedgerEvent| (spec_run_label(e.source), step, e))
}

/// With both sources subscribed under their usual labels, the
/// recorder's filter keeps every event, in order, under its label.
proof fn lemma_run_captured(
    subs: Seq<crate::recorder::Subscription>,
    step: int,
    events: Seq<LedgerEvent>,
)
    requires
        crate::recorder::spec_label_for(subs, EventSource::Lex) == Some("lex"@),
        crate::recorder::spec_label_for(subs, EventSource::Pool) == Some("g3m"@),
    ensures
        crate::recorder::spec_captured(subs, step, events) == spec_run_captured(step, events),
    decreases events.len(),
{
    if events.len() == 0 {
        assert(crate::recorder::spec_captured(subs, step, events) =~= spec_run_captured(
            step,
            events,
        ));
    } else {
        lemma_run_captured(subs, step, events.drop_last());
        let last = events.last();
        assert(crate::recorder::spec_label_for(subs, last.source) == Some(
            spec_run_label(last.source),
        ));
        assert(crate::recorder::spec_captured(subs, step, events) =~= spec_run_captured(
            step,
            events,
        ));
    }
}

/// The trace of a seeded run after `t` ticks, as a mathematical
/// function of the direct configuration and the seed alone: the price
/// at tick `t` is the sampled trajectory's point `t`, and everything
/// else follows the engine's fixed tick order.
pub open spec fn spec_config_trace(config: SimulationConfig<i64>, seed: u64, t: nat) -> RunTrace
    decreases t,
{
    if t == 0 {
        RunTrace {
            block_number: 0,
            timestamp: 0,
            oracle_price: config.trajectory.initial_price,
            spot_price: config.trajectory.initial_price,
            weight_x: config.pool.weight_x,
            rebalance_anchor: config.trajectory.initial_price,
            pending: Seq::empty().push(
                LedgerEvent {
                    source: EventSource::Pool,
                    block: 0,
                    kind: EventKind::LiquidityAdded(
                        config.lp.x_liquidity,
                        crate::fixed::spec_fx_mul(
                            config.lp.x_liquidity as int,
                            config.trajectory.initial_price as int,
                        ) as i64,
                    ),
                },
            ),
            log: Seq::empty(),
        }
    } else {
        let prev = spec_config_trace(config, seed, (t - 1) as nat);
        let bn = crate::ledger::spec_sat_add_u64(prev.block_number, 1);
        let price = spec_point(
            spec_process(config),
            spec_sampling(config),
            spec_path_seed(seed, 0),
            t,
        ) as i64;
        let trades = crate::fixed::spec_fx_abs(
            crate::fixed::spec_fx_sub(prev.spot_price as int, price as int),
        ) > ARB_THRESHOLD;
        let due = crate::ledger::spec_sat_add_u64(t - 1, 1) % (
        config.weight_changer.update_frequency as int) == 0;
        let new_weight = crate::agents::spec_target_weight(
            prev.weight_x as int,
            config.weight_changer.target_volatility as int,
            price as int,
            prev.rebalance_anchor as int,
        );
        let with_price = prev.pending.push(
            LedgerEvent {
                source: EventSource::Lex,
                block: bn as u64,
                kind: EventKind::PriceUpdate(price),
            },
        );
        let with_swap = if trades {
            with_price.push(
                LedgerEvent {
                    source: EventSource::Pool,
                    block: bn as u64,
                    kind: EventKind::Swap(prev.spot_price, price),
                },
            )
        } else {
            with_price
        };
        let events = if due {
            with_swap.push(
                LedgerEvent {
                    source: EventSource::Pool,
                    block: bn as u64,
                    kind: EventKind::WeightUpdate(new_weight as i64),
                },
            )
        } else {
            with_swap
        };
        RunTrace {
            block_number: bn,
            timestamp: crate::ledger::spec_sat_add_u64(
                prev.timestamp,
                config.block.timestep_size as int,
            ),
            oracle_price: price,
            spot_price: if trades {
                price
            } else {
                prev.spot_price
            },
            weight_x: if due {
                new_weight as i64
            } else {
                prev.weight_x
            },
            rebalance_anchor: if due {
                price
            } else {
                prev.rebalance_anchor
            },
            pending: Seq::empty(),
            log: prev.log + spec_run_captured(t as int, events),
        }
    }
}

/// A simulation built from a seeded configuration, as `execute` builds
/// it, traces exactly as the configuration-level trace says.
proof fn lemma_execute_trace(s0: Simulation, config: SimulationConfig<i64>, seed: u64, t: nat)
    requires
        t <= config.trajectory.num_steps,
        s0.price_changer.trajectory.matches_seed(
            spec_process(config),
            spec_sampling(config),
            seed,
            1,
        ),
        s0.block_admin.timestep_size == config.block.timestep_size,
        s0.arbitrageur.threshold == ARB_THRESHOLD,
        s0.weight_changer.target_volatility == config.weight_changer.target_volatility,
        s0.weight_changer.update_frequency == config.weight_changer.update_frequency,
        s0.weight_changer.last_price == config.trajectory.initial_price,
        s0.liquidity_provider.x_liquidity == config.lp.x_liquidity,
        s0.liquidity_provider.initial_price == config.trajectory.initial_price,
        s0.ledger.block == (crate::ledger::Block { number: 0, timestamp: 0 }),
        s0.ledger.oracle_price == config.trajectory.initial_price,
        s0.ledger.pool.weight_x == config.pool.weight_x,
        s0.ledger.pool.spot_price == config.trajectory.initial_price,
        s0.ledger.pending_events@ == Seq::<LedgerEvent>::empty(),
        s0.recorder.log@ == Seq::<RecordedEvent>::empty(),
        crate::recorder::spec_label_for(s0.recorder.subscriptions@, EventSource::Lex) == Some(
            "lex"@,
        ),
        crate::recorder::spec_label_for(s0.recorder.subscriptions@, EventSource::Pool) == Some(
            "g3m"@,
        ),
    ensures
        s0.spec_trace(t).block_number == spec_config_trace(config, seed, t).block_number,
        s0.spec_trace(t).timestamp == spec_config_trace(config, seed, t).timestamp,
        s0.spec_trace(t).oracle_price == spec_config_trace(config, seed, t).oracle_price,
        s0.spec_trace(t).spot_price == spec_config_trace(config, seed, t).spot_price,
        s0.spec_trace(t).weight_x == spec_config_trace(config, seed, t).weight_x,
        s0.spec_trace(t).rebalance_anchor == spec_config_trace(config, seed, t).rebalance_anchor,
        s0.spec_trace(t).pending == spec_config_trace(config, seed, t).pending,
        s0.spec_trace(t).log == spec_config_trace(config, seed, t).log,
    decreases t,
{
    if t == 0 {
        assert(s0.recorder.view_log() =~= Seq::<(Seq<char>, int, LedgerEvent)>::empty());
        assert(s0.spec_trace(0).pending =~= spec_config_trace(config, seed, 0).pending);
    } else {
        lemma_execute_trace(s0, config, seed, (t - 1) as nat);
        let price = s0.price_changer.trajectory.paths@[0]@[t as int];
        assert(price as int == spec_point(
            spec_process(config),
            spec_sampling(config),
            spec_path_seed(seed, 0),
            t,
        ));
        let prev = s0.spec_trace((t - 1) as nat);
        let bn = crate::ledger::spec_sat_add_u64(prev.block_number, 1);
        let trades = crate::fixed::spec_fx_abs(
            crate::fixed::spec_fx_sub(prev.spot_price as int, price as int),
        ) > ARB_THRESHOLD;
        let due = crate::ledger::spec_sat_add_u64(t - 1, 1) % (
        config.weight_changer.update_frequency as int) == 0;
        let new_weight = crate::agents::spec_target_weight(
            prev.weight_x as int,
            config.weight_changer.target_volatility as int,
            price as int,
            prev.rebalance_anchor as int,
        );
        let with_price = prev.pending.push(
            LedgerEvent {
                source: EventSource::Lex,
                block: bn as u64,
                kind: EventKind::PriceUpdate(price),
            },
        );
        let with_swap = if trades {
            with_price.push(
                LedgerEvent {
                    source: EventSource::Pool,
                    block: bn as u64,
                    kind: EventKind::Swap(prev.spot_price, price),
                },
            )
        } else {
            with_price
        };
        let events = if due {
            with_swap.push(
                LedgerEvent {
                    source: EventSource::Pool,
                    block: bn as u64,
                    kind: EventKind::WeightUpdate(new_weight as i64),
                },
            )
        } else {
            with_swap
        };
        lemma_run_captured(s0.recorder.subscriptions@, t as int, events);
    }
}

/// Whether an output is the one the configuration-level trace pins for
/// a seeded run, as `execute` guarantees of its result.
pub open spec fn spec_output_matches(
    config: SimulationConfig<i64>,
    s: u64,
    out: RunOutput,
) -> bool {
    let trace = spec_config_trace(config, s, config.trajectory.num_steps as nat);
    &&& out.ticks == config.trajectory.num_steps
    &&& out.final_oracle_price == trace.oracle_price
    &&& out.final_spot_price == trace.spot_price
    &&& out.final_weight_x == trace.weight_x
    &&& out.events@.map_values(|e: RecordedEvent| crate::recorder::spec_entry(e)) == trace.log
}

/// A seeded run is reproducible end to end: two outputs of the same
/// configuration and seed agree on the tick count, every final price,
/// the final weight, and the entire captured event log.
pub proof fn lemma_run_reproducible(
    config: SimulationConfig<i64>,
    s: u64,
    a: RunOutput,
    b: RunOutput,
)
    requires
        spec_output_matches(config, s, a),
        spec_output_matches(config, s, b),
    ensures
        a.ticks == b.ticks,
        a.final_oracle_price == b.final_oracle_price,
        a.final_spot_price == b.final_spot_price,
        a.final_weight_x == b.final_weight_x,
        a.events@.map_values(|e: RecordedEvent| crate::recorder::spec_entry(e))
            == b.events@.map_values(|e: RecordedEvent| crate::recorder::spec_entry(e)),
{
}

/// The two subscriptions every run listens on: the oracle's events
/// under "lex", the pool's under "g3m".
fn run_subscriptions() -> (r: Vec<Subscription>)
    ensures
        crate::recorder::spec_label_for(r@, EventSource::Lex) == Some("lex"@),
        crate::recorder::spec_label_for(r@, EventSource::Pool) == Some("g3m"@),
{
    let mut subscriptions: Vec<Subscription> = Vec::new();
    subscriptions.push(Subscription { label: String::from_str("lex"), source: EventSource::Lex });
    subscriptions.push(Subscription { label: String::from_str("g3m"), source: EventSource::Pool });
    proof {
        assert(subscriptions@.len() == 2);
        assert(subscriptions@.drop_first() =~= seq![subscriptions@[1]]);
        assert(crate::recorder::spec_label_for(
            seq![subscriptions@[1]],
            EventSource::Pool,
        ) == Some("g3m"@));
    }
    subscriptions
}

/// Build the run for a direct configuration and drive it to completion:
/// sample the trajectory, initialize the agents (admins first), tick
/// `num_steps` times in the fixed order, and flush the event log. Fails
/// with a `Configuration` error, before any work, exactly when the
/// configuration is not runnable. With an explicit seed the whole
/// outcome — final prices, final weight, and the full event log — is
/// the configuration-level trace: a pure function of the configuration.
/// Without one, the outcome is the trace that some freshly drawn seed
/// determines: a full run happened, only the seed was not chosen by the
/// caller.
#[verifier::rlimit(50)]
pub fn execute(config: &SimulationConfig<i64>) -> (r: Result<RunOutput, SimulationError>)
    ensures
        r is Ok <==> spec_runnable(*config),
        r is Err ==> r->Err_0 == SimulationError::Configuration,
        r is Ok ==> ({
            &&& r->Ok_0.ticks == config.trajectory.num_steps
            &&& match config.trajectory.seed {
                Some(s) => {
                    &&& r->Ok_0.final_oracle_price as int == spec_point(
                        spec_process(*config),
                        spec_sampling(*config),
                        spec_path_seed(s, 0),
                        config.trajectory.num_steps as nat,
                    )
                    &&& spec_output_matches(*config, s, r->Ok_0)
                },
                None => exists|s: u64| spec_output_matches(*config, s, r->Ok_0),
            }
        }),
{
    let proc: ProcessParameters = match (&config.gbm, &config.ou) {
        (Some(gbm), None) => ProcessParameters::DriftDiffusion {
            drift: gbm.drift,
            volatility: gbm.volatility,
        },
        (None, Some(ou)) => ProcessParameters::MeanReverting {
            mean: ou.mean,
            std_dev: ou.std_dev,
            theta: ou.theta,
        },
        _ => {
            return Err(SimulationError::Configuration);
        },
    };
    if config.weight_changer.update_frequency == 0 {
        return Err(SimulationError::Configuration);
    }
    let sampling = SamplingParameters {
        initial_price: config.trajectory.initial_price,
        t_0: config.trajectory.t_0,
        t_n: config.trajectory.t_n,
        num_steps: config.trajectory.num_steps,
        seed: config.trajectory.seed,
    };
    let trajectory: Trajectory = match Trajectory::generate(&proc, &sampling, 1) {
        Ok(t) => t,
        Err(e) => {
            return Err(e);
        },
    };
    let ghost witness_seed: u64 = match sampling.seed {
        Some(s) => s,
        None => choose|s: u64| trajectory.matches_seed(proc, sampling, s, 1 as nat),
    };
    proof {
        assert(trajectory.matches_seed(proc, sampling, witness_seed, 1));
    }
    let num_steps: usize = config.trajectory.num_steps;
    let ledger = LedgerState::new(
        config.trajectory.initial_price,
        config.pool.fee_basis_points,
        config.pool.weight_x,
    );
    let recorder = EventRecorder::new(run_subscriptions());
    let mut sim = Simulation::new(
        num_steps,
        BlockAdmin::new(config.block.timestep_size),
        TokenAdmin::new(INITIAL_SUPPLY, INITIAL_SUPPLY),
        PriceChanger::new(trajectory),
        LiquidityProvider::new(config.lp.x_liquidity, config.trajectory.initial_price),
        Arbitrageur::new(ARB_THRESHOLD),
        WeightChanger::new(
            config.weight_changer.target_volatility,
            config.weight_changer.update_frequency,
            config.trajectory.initial_price,
        ),
        ledger,
        recorder,
    );
    let ghost sim0: Simulation = sim;
    let run_result = sim.run();
    proof {
        assert(run_result is Ok);
        lemma_execute_trace(sim0, *config, witness_seed, config.trajectory.num_steps as nat);
    }
    let events: Vec<RecordedEvent> = match sim.flush_events() {
        Ok(events) => events,
        Err(e) => {
            return Err(e);
        },
    };
    let output = RunOutput {
        events,
        ticks: sim.tick,
        final_oracle_price: sim.ledger.oracle_price,
        final_spot_price: sim.ledger.pool.spot_price,
        final_weight_x: sim.ledger.pool.weight_x,
    };
    proof {
        assert(spec_output_matches(*config, witness_seed, output));
    }
    Ok(output)
}

} // verus!
