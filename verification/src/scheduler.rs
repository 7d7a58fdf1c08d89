//! The simulation scheduler.
//!
//! The discrete-step loop of one run: advance the simulated clock, invoke
//! the agents in a fixed order each tick, and terminate after the
//! configured number of steps. The order within a tick is a load-bearing
//! invariant: the clock advances first, the price-setting agent pushes the
//! new trajectory value, the arbitrage-closing agent reacts to the new
//! price, the weight-rebalancing agent acts on its cadence, and the
//! recorder drains the emitted events — in exactly that order. The
//! scheduler, not the agents, holds the sequencing logic.

use vstd::prelude::*;
use crate::agents::{
    spec_target_weight, Arbitrageur, BlockAdmin, LiquidityProvider, PriceChanger, TokenAdmin,
    WeightChanger,
};
use crate::errors::SimulationError;
use crate::fixed::{spec_fx_abs, spec_fx_sub};
use crate::ledger::{spec_sat_add_u64, EventKind, EventSource, LedgerEvent, LedgerState};
use crate::recorder::{spec_captured, EventRecorder, RecordedEvent};

verus! {

/// Lifecycle of one run.
#[derive(Clone, Copy, Debug, PartialEq, Eq, Structural)]
pub enum RunState {
    /// Built, not yet initialized.
    Created,
    /// Agent startup work in flight.
    Initializing,
    /// Ticking; the tick counter says how many steps completed.
    Stepping,
    /// All steps done; the trajectory is fully consumed.
    Completed,
    /// Aborted; no further tick will run.
    Failed,
}

/// The observable state of a run after some number of completed ticks,
/// as mathematical values: the clock, the oracle and pool prices, the
/// pool weight, the rebalancer's price anchor, the events not yet
/// drained, and the captured log.
pub struct RunTrace {
    pub block_number: int,
    pub timestamp: int,
    pub oracle_price: i64,
    pub spot_price: i64,
    pub weight_x: i64,
    pub rebalance_anchor: i64,
    pub pending: Seq<LedgerEvent>,
    pub log: Seq<(Seq<char>, int, LedgerEvent)>,
}

/// One simulation run: its state machine, its agents in their fixed
/// order, the ledger they share, and the event recorder.
pub struct Simulation {
    pub state: RunState,
    /// Completed ticks.
    pub tick: u64,
    /// Ticks the run performs in total.
    pub num_steps: usize,
    pub block_admin: BlockAdmin,
    pub token_admin: TokenAdmin,
    pub price_changer: PriceChanger,
    pub liquidity_provider: LiquidityProvider,
    pub arbitrageur: Arbitrageur,
    pub weight_changer: WeightChanger,
    pub ledger: LedgerState,
    pub recorder: EventRecorder,
}

impl Simulation {
    /// The run's structural invariant: agents valid, the trajectory long
    /// enough for every tick, the price cursor in lockstep with the tick
    /// counter, and the rebalance counter in lockstep with the clock.
    pub open spec fn wf(self) -> bool {
        &&& self.token_admin.wf()
        &&& self.price_changer.wf()
        &&& self.weight_changer.wf()
        &&& self.num_steps < usize::MAX
        &&& self.price_changer.trajectory.paths@[0]@.len() == self.num_steps + 1
        &&& self.weight_changer.tick == self.tick
        &&& self.tick <= self.num_steps
        &&& (self.state is Created ==> self.tick == 0 && self.price_changer.index == 1)
        &&& (self.state is Stepping ==> self.tick < self.num_steps && self.price_changer.index
            == self.tick + 1)
        &&& (self.state is Completed ==> self.tick == self.num_steps && self.price_changer.index
            == self.tick + 1)
    }

    /// The trajectory value the next tick pushes to the oracle.
    pub open spec fn spec_tick_price(self) -> i64 {
        self.price_changer.trajectory.paths@[0]@[self.price_changer.index as int]
    }

    /// Whether the arbitrageur trades on the next tick: the pool's quote
    /// measured against the freshly pushed oracle price exceeds the
    /// threshold.
    pub open spec fn spec_arb_trades(self) -> bool {
        spec_fx_abs(
            spec_fx_sub(self.ledger.pool.spot_price as int, self.spec_tick_price() as int),
        ) > self.arbitrageur.threshold
    }

    /// The weight submitted if the next tick rebalances.
    pub open spec fn spec_new_weight(self) -> int {
        spec_target_weight(
            self.ledger.pool.weight_x as int,
            self.weight_changer.target_volatility as int,
            self.spec_tick_price() as int,
            self.weight_changer.last_price as int,
        )
    }

    /// The block number stamped on the next tick's events.
    pub open spec fn spec_tick_block(self) -> u64 {
        spec_sat_add_u64(self.ledger.block.number as int, 1) as u64
    }

    /// Every event the recorder drains at the end of the next tick, in
    /// emission order: whatever was already pending, then the price
    /// update, then the arbitrage swap if one happens, then the weight
    /// update if one is due.
    pub open spec fn spec_tick_events(self) -> Seq<LedgerEvent> {
        let bn = self.spec_tick_block();
        let price = self.spec_tick_price();
        let with_price = self.ledger.pending_events@.push(
            LedgerEvent { source: EventSource::Lex, block: bn, kind: EventKind::PriceUpdate(price) },
        );
        let with_swap = if self.spec_arb_trades() {
            with_price.push(
                LedgerEvent {
                    source: EventSource::Pool,
                    block: bn,
                    kind: EventKind::Swap(self.ledger.pool.spot_price, price),
                },
            )
        } else {
            with_price
        };
        if self.weight_changer.spec_due() {
            with_swap.push(
                LedgerEvent {
                    source: EventSource::Pool,
                    block: bn,
                    kind: EventKind::WeightUpdate(self.spec_new_weight() as i64),
                },
            )
        } else {
            with_swap
        }
    }

    /// The trace after `t` completed ticks of the run that `self` (a
    /// freshly created simulation) describes: every component is a
    /// mathematical function of the created run, so a whole run's
    /// observable outcome — including its event log — is pinned.
    pub open spec fn spec_trace(self, t: nat) -> RunTrace
        decreases t,
    {
        if t == 0 {
            RunTrace {
                block_number: self.ledger.block.number as int,
                timestamp: self.ledger.block.timestamp as int,
                oracle_price: self.ledger.oracle_price,
                spot_price: self.liquidity_provider.initial_price,
                weight_x: self.ledger.pool.weight_x,
                rebalance_anchor: self.weight_changer.last_price,
                pending: self.ledger.pending_events@.push(
                    LedgerEvent {
                        source: EventSource::Pool,
                        block: self.ledger.block.number,
                        kind: EventKind::LiquidityAdded(
                            self.liquidity_provider.x_liquidity,
                            self.liquidity_provider.spec_y_liquidity() as i64,
                        ),
                    },
                ),
                log: self.recorder.view_log(),
            }
        } else {
            let prev = self.spec_trace((t - 1) as nat);
            let bn = spec_sat_add_u64(prev.block_number, 1);
            let price = self.price_changer.trajectory.paths@[0]@[t as int];
            let trades = spec_fx_abs(spec_fx_sub(prev.spot_price as int, price as int))
                > self.arbitrageur.threshold;
            let due = spec_sat_add_u64(t - 1, 1) % (self.weight_changer.update_frequency as int)
                == 0;
            let new_weight = spec_target_weight(
                prev.weight_x as int,
                self.weight_changer.target_volatility as int,
                price as int,
                prev.rebalance_anchor as int,
            );
            let with_price = prev.pending.push(
                LedgerEvent {
                    source: EventSource::Lex,
                    block: bn as u64,
                    kind: EventKind::PriceUpdate(price),
                },
            );
            let with_swap = if trades {
                with_price.push(
                    LedgerEvent {
                        source: EventSource::Pool,
                        block: bn as u64,
                        kind: EventKind::Swap(prev.spot_price, price),
                    },
                )
            } else {
                with_price
            };
            let events = if due {
                with_swap.push(
                    LedgerEvent {
                        source: EventSource::Pool,
                        block: bn as u64,
                        kind: EventKind::WeightUpdate(new_weight as i64),
                    },
                )
            } else {
                with_swap
            };
            RunTrace {
                block_number: bn,
                timestamp: spec_sat_add_u64(prev.timestamp, self.block_admin.timestep_size as int),
                oracle_price: price,
                spot_price: if trades {
                    price
                } else {
                    prev.spot_price
                },
                weight_x: if due {
                    new_weight as i64
                } else {
                    prev.weight_x
                },
                rebalance_anchor: if due {
                    price
                } else {
                    prev.rebalance_anchor
                },
                pending: Seq::empty(),
                log: prev.log + spec_captured(self.recorder.subscriptions@, t as int, events),
            }
        }
    }

    /// Build a run in the `Created` state around a sampled trajectory,
    /// its agents, a fresh ledger, and a recorder.
    pub fn new(
        num_steps: usize,
        block_admin: BlockAdmin,
        token_admin: TokenAdmin,
        price_changer: PriceChanger,
        liquidity_provider: LiquidityProvider,
        arbitrageur: Arbitrageur,
        weight_changer: WeightChanger,
        ledger: LedgerState,
        recorder: EventRecorder,
    ) -> (r: Simulation)
        requires
            token_admin.wf(),
            price_changer.wf(),
            weight_changer.wf(),
            price_changer.index == 1,
            weight_changer.tick == 0,
            price_changer.trajectory.paths@[0]@.len() == num_steps + 1,
            num_steps < usize::MAX,
        ensures
            r.state is Created,
            r.tick == 0,
            r.num_steps == num_steps,
            r.block_admin == block_admin,
            r.token_admin == token_admin,
            r.price_changer == price_changer,
            r.liquidity_provider == liquidity_provider,
            r.arbitrageur == arbitrageur,
            r.weight_changer == weight_changer,
            r.ledger == ledger,
            r.recorder == recorder,
            r.wf(),
    {
        Simulation {
            state: RunState::Created,
            tick: 0,
            num_steps,
            block_admin,
            token_admin,
            price_changer,
            liquidity_provider,
            arbitrageur,
            weight_changer,
            ledger,
            recorder,
        }
    }

    /// Run every agent's one-time startup work, admins before economic
    /// agents, in declared order: block admin, token admin, price
    /// changer, liquidity provider, arbitrageur, weight changer. On
    /// success the run enters `Stepping` (or `Completed` for a zero-step
    /// run).
    pub fn initialize(&mut self) -> (r: Result<(), SimulationError>)
        requires
            old(self).wf(),
            old(self).state is Created,
        ensures
            r is Ok,
            final(self).wf(),
            final(self).state == if old(self).num_steps == 0 {
                RunState::Completed
            } else {
                RunState::Stepping
            },
            final(self).tick == 0,
            final(self).num_steps == old(self).num_steps,
            final(self).block_admin == old(self).block_admin,
            final(self).token_admin == old(self).token_admin,
            final(self).price_changer == old(self).price_changer,
            final(self).liquidity_provider == old(self).liquidity_provider,
            final(self).arbitrageur == old(self).arbitrageur,
            final(self).weight_changer == old(self).weight_changer,
            final(self).recorder == old(self).recorder,
            final(self).ledger.balance_x as int == crate::fixed::spec_fx_add(
                old(self).ledger.balance_x as int,
                old(self).token_admin.supply_x as int,
            ),
            final(self).ledger.balance_y as int == crate::fixed::spec_fx_add(
                old(self).ledger.balance_y as int,
                old(self).token_admin.supply_y as int,
            ),
            final(self).ledger.pool.reserve_x == old(self).liquidity_provider.x_liquidity,
            final(self).ledger.pool.reserve_y as int == old(
                self,
            ).liquidity_provider.spec_y_liquidity(),
            final(self).ledger.pool.spot_price == old(self).liquidity_provider.initial_price,
            final(self).ledger.pool.weight_x == old(self).ledger.pool.weight_x,
            final(self).ledger.pool.fee_basis_points == old(self).ledger.pool.fee_basis_points,
            final(self).ledger.block == old(self).ledger.block,
            final(self).ledger.oracle_price == old(self).ledger.oracle_price,
            final(self).ledger.pending_events@ == old(self).ledger.pending_events@.push(
                LedgerEvent {
                    source: EventSource::Pool,
                    block: old(self).ledger.block.number,
                    kind: EventKind::LiquidityAdded(
                        old(self).liquidity_provider.x_liquidity,
                        final(self).ledger.pool.reserve_y,
                    ),
                },
            ),
    {
        self.state = RunState::Initializing;
        self.token_admin.fund(&mut self.ledger);
        self.liquidity_provider.startup(&mut self.ledger);
        if self.num_steps == 0 {
            self.state = RunState::Completed;
        } else {
            self.state = RunState::Stepping;
        }
        Ok(())
    }

    /// One tick: clock, new price, arbitrage, rebalance, record — in that
    /// order. A tick demanded of a run that is not stepping (in
    /// particular, one already completed: tick `num_steps + 1`) is an
    /// engine bug and fails with a `Schedule` error, changing nothing.
    pub fn tick(&mut self) -> (r: Result<(), SimulationError>)
        requires
            old(self).wf(),
        ensures
            final(self).wf(),
            r is Ok <==> old(self).state is Stepping,
            r is Err ==> r->Err_0 == SimulationError::Schedule && *final(self) == *old(self),
            r is Ok ==> ({
                &&& final(self).tick == old(self).tick + 1
                &&& final(self).num_steps == old(self).num_steps
                &&& final(self).state == if old(self).tick + 1 == old(self).num_steps {
                    RunState::Completed
                } else {
                    RunState::Stepping
                }
                &&& final(self).block_admin == old(self).block_admin
                &&& final(self).token_admin == old(self).token_admin
                &&& final(self).liquidity_provider == old(self).liquidity_provider
                &&& final(self).arbitrageur == old(self).arbitrageur
                &&& final(self).price_changer.trajectory == old(self).price_changer.trajectory
                &&& final(self).price_changer.index == old(self).price_changer.index + 1
                &&& final(self).weight_changer.target_volatility == old(
                    self,
                ).weight_changer.target_volatility
                &&& final(self).weight_changer.update_frequency == old(
                    self,
                ).weight_changer.update_frequency
                &&& final(self).weight_changer.tick == old(self).weight_changer.tick + 1
                &&& final(self).weight_changer.last_price == if old(
                    self,
                ).weight_changer.spec_due() {
                    old(self).spec_tick_price()
                } else {
                    old(self).weight_changer.last_price
                }
                &&& final(self).ledger.block.number == old(self).spec_tick_block()
                &&& final(self).ledger.block.timestamp as int == spec_sat_add_u64(
                    old(self).ledger.block.timestamp as int,
                    old(self).block_admin.timestep_size as int,
                )
                &&& final(self).ledger.oracle_price == old(self).spec_tick_price()
                &&& final(self).ledger.pool.spot_price == if old(self).spec_arb_trades() {
                    old(self).spec_tick_price()
                } else {
                    old(self).ledger.pool.spot_price
                }
                &&& final(self).ledger.pool.weight_x as int == if old(
                    self,
                ).weight_changer.spec_due() {
                    old(self).spec_new_weight()
                } else {
                    old(self).ledger.pool.weight_x as int
                }
                &&& final(self).ledger.pool.reserve_x == old(self).ledger.pool.reserve_x
                &&& final(self).ledger.pool.reserve_y == old(self).ledger.pool.reserve_y
                &&& final(self).ledger.pool.fee_basis_points == old(
                    self,
                ).ledger.pool.fee_basis_points
                &&& final(self).ledger.balance_x == old(self).ledger.balance_x
                &&& final(self).ledger.balance_y == old(self).ledger.balance_y
                &&& final(self).ledger.pending_events@ == Seq::<LedgerEvent>::empty()
                &&& final(self).recorder.subscriptions == old(self).recorder.subscriptions
                &&& final(self).recorder.flushed == old(self).recorder.flushed
                &&& final(self).recorder.view_log() == old(self).recorder.view_log()
                    + spec_captured(
                    old(self).recorder.subscriptions@,
                    old(self).tick + 1,
                    old(self).spec_tick_events(),
                )
            }),
    {
        match self.state {
            RunState::Stepping => {
                self.block_admin.update_block(&mut self.ledger);
                let price_result = self.price_changer.update_price(&mut self.ledger);
                proof {
                    assert(price_result is Ok);
                }
                self.arbitrageur.step(&mut self.ledger);
                self.weight_changer.step(&mut self.ledger);
                let events: Vec<LedgerEvent> = self.ledger.drain_events();
                proof {
                    assert(events@ =~= old(self).spec_tick_events());
                }
                self.recorder.record_step(self.tick + 1, &events);
                self.tick = self.tick + 1;
                if self.tick == self.num_steps as u64 {
                    self.state = RunState::Completed;
                }
                Ok(())
            },
            _ => Err(SimulationError::Schedule),
        }
    }

    /// Initialize, then tick until the run completes. The finished
    /// run's clock, prices, weight, and captured event log equal the
    /// created run's trace after `num_steps` ticks: the whole outcome
    /// is a mathematical function of what the run was built from.
    pub fn run(&mut self) -> (r: Result<(), SimulationError>)
        requires
            old(self).wf(),
            old(self).state is Created,
        ensures
            r is Ok,
            final(self).wf(),
            final(self).state is Completed,
            final(self).tick == old(self).num_steps,
            final(self).num_steps == old(self).num_steps,
            final(self).recorder.subscriptions == old(self).recorder.subscriptions,
            final(self).recorder.flushed == old(self).recorder.flushed,
            final(self).price_changer.trajectory == old(self).price_changer.trajectory,
            old(self).num_steps > 0 ==> final(self).ledger.oracle_price == old(
                self,
            ).price_changer.trajectory.paths@[0]@[old(self).num_steps as int],
            final(self).ledger.block.number as int == old(self).spec_trace(
                old(self).num_steps as nat,
            ).block_number,
            final(self).ledger.block.timestamp as int == old(self).spec_trace(
                old(self).num_steps as nat,
            ).timestamp,
            final(self).ledger.pool.spot_price == old(self).spec_trace(
                old(self).num_steps as nat,
            ).spot_price,
            final(self).ledger.pool.weight_x == old(self).spec_trace(
                old(self).num_steps as nat,
            ).weight_x,
            final(self).recorder.view_log() == old(self).spec_trace(
                old(self).num_steps as nat,
            ).log,
    {
        let ghost s0: Simulation = *self;
        let init_result = self.initialize();
        proof {
            assert(init_result is Ok);
            assert(self.ledger.pending_events@ == s0.spec_trace(0).pending);
        }
        while self.state == RunState::Stepping
            invariant
                self.wf(),
                self.state is Stepping || self.state is Completed,
                self.num_steps == s0.num_steps,
                self.state is Completed ==> self.tick == self.num_steps,
                self.recorder.subscriptions == s0.recorder.subscriptions,
                self.recorder.flushed == s0.recorder.flushed,
                self.price_changer.trajectory == s0.price_changer.trajectory,
                self.block_admin == s0.block_admin,
                self.arbitrageur == s0.arbitrageur,
                self.liquidity_provider == s0.liquidity_provider,
                self.weight_changer.target_volatility == s0.weight_changer.target_volatility,
                self.weight_changer.update_frequency == s0.weight_changer.update_frequency,
                self.ledger.pool.reserve_x == s0.liquidity_provider.x_liquidity,
                self.tick > 0 ==> self.ledger.oracle_price
                    == self.price_changer.trajectory.paths@[0]@[self.tick as int],
                self.ledger.block.number as int == s0.spec_trace(self.tick as nat).block_number,
                self.ledger.block.timestamp as int == s0.spec_trace(self.tick as nat).timestamp,
                self.ledger.oracle_price == s0.spec_trace(self.tick as nat).oracle_price,
                self.ledger.pool.spot_price == s0.spec_trace(self.tick as nat).spot_price,
                self.ledger.pool.weight_x == s0.spec_trace(self.tick as nat).weight_x,
                self.weight_changer.last_price == s0.spec_trace(
                    self.tick as nat,
                ).rebalance_anchor,
                self.ledger.pending_events@ == s0.spec_trace(self.tick as nat).pending,
                self.recorder.view_log() == s0.spec_trace(self.tick as nat).log,
            decreases self.num_steps - self.tick,
        {
            let ghost before: Simulation = *self;
            let tick_result = self.tick();
            proof {
                assert(tick_result is Ok);
                let t: nat = self.tick as nat;
                let prev = s0.spec_trace((t - 1) as nat);
                assert(t == before.tick + 1);
                assert(before.price_changer.index == t);
                assert(before.spec_tick_price() == s0.price_changer.trajectory.paths@[0]@[
                    t as int
                ]);
                assert(before.spec_tick_block() as int == spec_sat_add_u64(prev.block_number, 1));
                assert(before.spec_arb_trades() == (spec_fx_abs(
                    spec_fx_sub(prev.spot_price as int, before.spec_tick_price() as int),
                ) > s0.arbitrageur.threshold));
                assert(before.weight_changer.spec_due() == (spec_sat_add_u64(t - 1, 1) % (
                s0.weight_changer.update_frequency as int) == 0));
                assert(before.spec_new_weight() == spec_target_weight(
                    prev.weight_x as int,
                    s0.weight_changer.target_volatility as int,
                    before.spec_tick_price() as int,
                    prev.rebalance_anchor as int,
                ));
                assert(self.ledger.pending_events@ =~= s0.spec_trace(t).pending);
                assert(self.recorder.view_log() == s0.spec_trace(t).log);
            }
        }
        Ok(())
    }

    /// Abort the run: mark it `Failed` and flush the partial event log,
    /// captured up to the last completed tick. An already-flushed
    /// recorder is refused with a `Recorder` error.
    pub fn abort(&mut self) -> (r: Result<Vec<RecordedEvent>, SimulationError>)
        requires
            old(self).wf(),
        ensures
            final(self).state is Failed,
            final(self).tick == old(self).tick,
            final(self).ledger == old(self).ledger,
            r is Ok <==> !old(self).recorder.flushed,
            r is Ok ==> r->Ok_0@ == old(self).recorder.log@ && final(self).recorder.flushed,
            r is Err ==> r->Err_0 == SimulationError::Recorder && final(self).recorder == old(
                self,
            ).recorder,
    {
        self.state = RunState::Failed;
        self.recorder.flush()
    }

    /// Flush the completed run's event log. An already-flushed recorder
    /// is refused with a `Recorder` error.
    pub fn flush_events(&mut self) -> (r: Result<Vec<RecordedEvent>, SimulationError>)
        ensures
            final(self).state == old(self).state,
            final(self).tick == old(self).tick,
            final(self).ledger == old(self).ledger,
            r is Ok <==> !old(self).recorder.flushed,
            r is Ok ==> r->Ok_0@ == old(self).recorder.log@ && final(self).recorder.flushed,
            r is Err ==> r->Err_0 == SimulationError::Recorder && final(self).recorder == old(
                self,
            ).recorder,
    {
        self.recorder.flush()
    }

    /// A trajectory of `num_steps + 1` points is fully consumed by
    /// exactly `num_steps` ticks: when the run has completed, the price
    /// cursor stands one past the last index, and nothing remains.
    pub proof fn lemma_trajectory_consumed(self)
        requires
            self.wf(),
            self.state is Completed,
        ensures
            self.price_changer.index == self.price_changer.trajectory.paths@[0]@.len(),
            self.price_changer.remaining() == 0,
    {
    }
}

} // verus!
