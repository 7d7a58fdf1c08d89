//! Agent roles.
//!
//! Each agent is a typed participant with a narrow lifecycle consumed by
//! the scheduler: `init` runs once against the ledger, `step` runs once
//! per tick. The agent set is fixed and known, so the polymorphic role is
//! a closed tagged enum dispatched through a single `match`. Agents own
//! their cursors and parameters; inter-agent effects occur only through
//! ledger-visible state.

use vstd::prelude::*;
use crate::errors::SimulationError;
use crate::fixed;
use crate::fixed::{spec_fx_abs, spec_fx_div, spec_fx_mul, spec_fx_sub};
use crate::ledger::{spec_sat_add_u64, EventKind, EventSource, LedgerEvent, LedgerState};
use crate::trajectory::Trajectory;

verus! {

/// Lowest weight the rebalancer will ever target, in fixed point.
pub const MIN_WEIGHT: i64 = 10_000;

/// Highest weight the rebalancer will ever target, in fixed point.
pub const MAX_WEIGHT: i64 = 990_000;

/// Advances the simulated block clock, every step, before any other
/// agent acts.
#[derive(Clone, Copy, Debug, PartialEq, Eq, Structural)]
pub struct BlockAdmin {
    /// Seconds added to the simulated timestamp per block.
    pub timestep_size: u64,
}

impl BlockAdmin {
    pub fn new(timestep_size: u64) -> (r: BlockAdmin)
        ensures
            r.timestep_size == timestep_size,
    {
        BlockAdmin { timestep_size }
    }

    /// Advance the block number by one and the timestamp by the
    /// configured timestep.
    pub fn update_block(&self, ledger: &mut LedgerState)
        ensures
            final(ledger).block.number as int == spec_sat_add_u64(
                old(ledger).block.number as int,
                1,
            ),
            final(ledger).block.timestamp as int == spec_sat_add_u64(
                old(ledger).block.timestamp as int,
                self.timestep_size as int,
            ),
            final(ledger).oracle_price == old(ledger).oracle_price,
            final(ledger).pool == old(ledger).pool,
            final(ledger).balance_x == old(ledger).balance_x,
            final(ledger).balance_y == old(ledger).balance_y,
            final(ledger).pending_events@ == old(ledger).pending_events@,
    {
        ledger.advance_block(self.timestep_size);
    }
}

/// Mints and approves the token balances the economic agents draw on;
/// acts at initialization only.
#[derive(Clone, Copy, Debug, PartialEq, Eq, Structural)]
pub struct TokenAdmin {
    /// Balance of the risky token minted at startup.
    pub supply_x: i64,
    /// Balance of the quote token minted at startup.
    pub supply_y: i64,
}

impl TokenAdmin {
    pub fn new(supply_x: i64, supply_y: i64) -> (r: TokenAdmin)
        requires
            supply_x >= 0,
            supply_y >= 0,
        ensures
            r.supply_x == supply_x,
            r.supply_y == supply_y,
    {
        TokenAdmin { supply_x, supply_y }
    }

    /// The supplies this admin was configured with are mintable.
    pub open spec fn wf(self) -> bool {
        self.supply_x >= 0 && self.supply_y >= 0
    }

    /// Mint the configured supplies into the agents' balances.
    pub fn fund(&self, ledger: &mut LedgerState)
        requires
            self.wf(),
        ensures
            final(ledger).balance_x as int == fixed::spec_fx_add(
                old(ledger).balance_x as int,
                self.supply_x as int,
            ),
            final(ledger).balance_y as int == fixed::spec_fx_add(
                old(ledger).balance_y as int,
                self.supply_y as int,
            ),
            final(ledger).block == old(ledger).block,
            final(ledger).oracle_price == old(ledger).oracle_price,
            final(ledger).pool == old(ledger).pool,
            final(ledger).pending_events@ == old(ledger).pending_events@,
    {
        ledger.mint(self.supply_x, self.supply_y);
    }
}

/// Pushes the next trajectory value to the ledger-resident price oracle,
/// once per tick, advancing its own cursor.
#[derive(Clone, Debug, PartialEq)]
pub struct PriceChanger {
    /// The path the price process takes.
    pub trajectory: Trajectory,
    /// The index of the next price to push.
    pub index: usize,
}

impl PriceChanger {
    /// The changer reads path 0 of its trajectory.
    pub open spec fn wf(self) -> bool {
        self.trajectory.paths@.len() >= 1
    }

    /// The prices still to be pushed, oldest first.
    pub open spec fn remaining(self) -> int {
        self.trajectory.paths@[0]@.len() - self.index
    }

    /// A new changer over a sampled trajectory. The cursor starts at
    /// index 1: the initial price is already set when the oracle is
    /// deployed.
    pub fn new(trajectory: Trajectory) -> (r: PriceChanger)
        requires
            trajectory.paths@.len() >= 1,
        ensures
            r.trajectory == trajectory,
            r.index == 1,
            r.wf(),
    {
        PriceChanger { trajectory, index: 1 }
    }

    /// Push the price at the cursor to the oracle and advance the cursor.
    /// Invoking the changer past the trajectory's end is an engine bug
    /// and fails with a `Schedule` error, leaving everything unchanged.
    pub fn update_price(&mut self, ledger: &mut LedgerState) -> (r: Result<
        (),
        SimulationError,
    >)
        requires
            old(self).wf(),
        ensures
            final(self).trajectory == old(self).trajectory,
            final(self).wf(),
            r is Ok <==> old(self).index < old(self).trajectory.paths@[0]@.len(),
            r is Ok ==> ({
                &&& final(self).index == old(self).index + 1
                &&& final(ledger).oracle_price == old(self).trajectory.paths@[0]@[
                    old(self).index as int
                ]
                &&& final(ledger).pending_events@ == old(ledger).pending_events@.push(
                    LedgerEvent {
                        source: EventSource::Lex,
                        block: old(ledger).block.number,
                        kind: EventKind::PriceUpdate(
                            old(self).trajectory.paths@[0]@[old(self).index as int],
                        ),
                    },
                )
                &&& final(ledger).block == old(ledger).block
                &&& final(ledger).pool == old(ledger).pool
                &&& final(ledger).balance_x == old(ledger).balance_x
                &&& final(ledger).balance_y == old(ledger).balance_y
            }),
            r is Err ==> ({
                &&& r->Err_0 == SimulationError::Schedule
                &&& final(self).index == old(self).index
                &&& *final(ledger) == *old(ledger)
            }),
    {
        let path: &Vec<i64> = &self.trajectory.paths[0];
        if self.index < path.len() {
            let price: i64 = path[self.index];
            ledger.set_oracle_price(price);
            self.index = self.index + 1;
            Ok(())
        } else {
            Err(SimulationError::Schedule)
        }
    }
}

/// Seeds the pool's initial liquidity position at startup; performs no
/// per-step action.
#[derive(Clone, Copy, Debug, PartialEq, Eq, Structural)]
pub struct LiquidityProvider {
    /// Risky-token reserve to seed, in fixed point.
    pub x_liquidity: i64,
    /// Price at which the position is opened, in fixed point.
    pub initial_price: i64,
}

impl LiquidityProvider {
    pub fn new(x_liquidity: i64, initial_price: i64) -> (r: LiquidityProvider)
        ensures
            r.x_liquidity == x_liquidity,
            r.initial_price == initial_price,
    {
        LiquidityProvider { x_liquidity, initial_price }
    }

    /// The quote-token reserve matching the seeded risky reserve at the
    /// opening price.
    pub open spec fn spec_y_liquidity(self) -> int {
        spec_fx_mul(self.x_liquidity as int, self.initial_price as int)
    }

    /// Initialize the pool with a position sized from the configuration.
    pub fn startup(&self, ledger: &mut LedgerState)
        ensures
            final(ledger).pool.reserve_x == self.x_liquidity,
            final(ledger).pool.reserve_y as int == self.spec_y_liquidity(),
            final(ledger).pool.spot_price == self.initial_price,
            final(ledger).pool.weight_x == old(ledger).pool.weight_x,
            final(ledger).pool.fee_basis_points == old(ledger).pool.fee_basis_points,
            final(ledger).pending_events@ == old(ledger).pending_events@.push(LedgerEvent {
                source: EventSource::Pool,
                block: old(ledger).block.number,
                kind: EventKind::LiquidityAdded(self.x_liquidity, final(ledger).pool.reserve_y),
            }),
            final(ledger).block == old(ledger).block,
            final(ledger).oracle_price == old(ledger).oracle_price,
            final(ledger).balance_x == old(ledger).balance_x,
            final(ledger).balance_y == old(ledger).balance_y,
    {
        let y_liquidity: i64 = fixed::fx_mul(self.x_liquidity, self.initial_price);
        ledger.init_pool(self.x_liquidity, y_liquidity, self.initial_price);
    }
}

/// The pool's quoted price measured against the oracle's.
pub open spec fn spec_price_gap(l: LedgerState) -> int {
    spec_fx_abs(spec_fx_sub(l.pool.spot_price as int, l.oracle_price as int))
}

/// Compares the pool's quoted price against the oracle price each step
/// and trades to close any gap above its threshold.
#[derive(Clone, Copy, Debug, PartialEq, Eq, Structural)]
pub struct Arbitrageur {
    /// Smallest price gap worth closing, in fixed point.
    pub threshold: i64,
}

impl Arbitrageur {
    pub fn new(threshold: i64) -> (r: Arbitrageur)
        ensures
            r.threshold == threshold,
    {
        Arbitrageur { threshold }
    }

    /// Close the gap if it exceeds the threshold; otherwise a no-op.
    pub fn step(&self, ledger: &mut LedgerState)
        ensures
            spec_price_gap(*old(ledger)) > self.threshold ==> ({
                &&& final(ledger).pool == (crate::ledger::PoolState {
                    spot_price: old(ledger).oracle_price,
                    ..old(ledger).pool
                })
                &&& final(ledger).pending_events@ == old(ledger).pending_events@.push(
                    LedgerEvent {
                        source: EventSource::Pool,
                        block: old(ledger).block.number,
                        kind: EventKind::Swap(
                            old(ledger).pool.spot_price,
                            old(ledger).oracle_price,
                        ),
                    },
                )
                &&& final(ledger).block == old(ledger).block
                &&& final(ledger).oracle_price == old(ledger).oracle_price
                &&& final(ledger).balance_x == old(ledger).balance_x
                &&& final(ledger).balance_y == old(ledger).balance_y
            }),
            spec_price_gap(*old(ledger)) <= self.threshold ==> *final(ledger) == *old(ledger),
    {
        let gap: i64 = fixed::fx_abs(fixed::fx_sub(ledger.pool.spot_price, ledger.oracle_price));
        if gap > self.threshold {
            let oracle_price: i64 = ledger.oracle_price;
            ledger.swap_to_price(oracle_price);
        }
    }
}

/// The relative price move since the last rebalance, in fixed point:
/// `|oracle - last| / max(|last|, 1)`.
pub open spec fn spec_realized_move(oracle: int, last: int) -> int {
    spec_fx_div(spec_fx_abs(spec_fx_sub(oracle, last)), spec_move_denom(last))
}

/// The denominator of the relative move: the last price's magnitude,
/// floored at one raw unit so the quotient is defined.
pub open spec fn spec_move_denom(last: int) -> int {
    if spec_fx_abs(last) < 1 {
        1
    } else {
        spec_fx_abs(last)
    }
}

/// The weight the rebalancer targets: the current weight scaled by
/// `target_volatility / realized move`, clamped into
/// `[MIN_WEIGHT, MAX_WEIGHT]`; the current weight when no move happened.
pub open spec fn spec_target_weight(w: int, target_volatility: int, oracle: int, last: int) -> int {
    let realized = spec_realized_move(oracle, last);
    if realized == 0 {
        w
    } else {
        let scaled = spec_fx_mul(w, spec_fx_div(target_volatility as int, realized));
        if scaled < MIN_WEIGHT as int {
            MIN_WEIGHT as int
        } else if scaled > MAX_WEIGHT as int {
            MAX_WEIGHT as int
        } else {
            scaled
        }
    }
}

/// Recomputes target portfolio weights toward a target volatility on a
/// configured cadence and submits a weight update; off-cadence steps are
/// no-ops.
#[derive(Clone, Copy, Debug, PartialEq, Eq, Structural)]
pub struct WeightChanger {
    /// Volatility the portfolio is steered toward, in fixed point.
    pub target_volatility: i64,
    /// A rebalance happens every this many ticks.
    pub update_frequency: u64,
    /// Ticks seen so far.
    pub tick: u64,
    /// Oracle price at the last rebalance, in fixed point.
    pub last_price: i64,
}

impl WeightChanger {
    /// The cadence divides by this value.
    pub open spec fn wf(self) -> bool {
        self.update_frequency > 0
    }

    pub fn new(target_volatility: i64, update_frequency: u64, initial_price: i64) -> (r:
        WeightChanger)
        requires
            update_frequency > 0,
        ensures
            r.target_volatility == target_volatility,
            r.update_frequency == update_frequency,
            r.tick == 0,
            r.last_price == initial_price,
            r.wf(),
    {
        WeightChanger { target_volatility, update_frequency, tick: 0, last_price: initial_price }
    }

    /// Whether the step after `tick` ticks performs a rebalance: true on
    /// ticks `k, 2k, 3k, ...` for `update_frequency = k`.
    pub open spec fn spec_due(self) -> bool {
        spec_sat_add_u64(self.tick as int, 1) % (self.update_frequency as int) == 0
    }

    /// Count the tick; on cadence, recompute the weight from the
    /// oracle price and submit the update, else do nothing.
    pub fn step(&mut self, ledger: &mut LedgerState)
        requires
            old(self).wf(),
        ensures
            final(self).target_volatility == old(self).target_volatility,
            final(self).update_frequency == old(self).update_frequency,
            final(self).wf(),
            final(self).tick as int == spec_sat_add_u64(old(self).tick as int, 1),
            old(self).spec_due() ==> ({
                &&& final(self).last_price == old(ledger).oracle_price
                &&& final(ledger).pool == (crate::ledger::PoolState {
                    weight_x: (spec_target_weight(
                        old(ledger).pool.weight_x as int,
                        old(self).target_volatility as int,
                        old(ledger).oracle_price as int,
                        old(self).last_price as int,
                    )) as i64,
                    ..old(ledger).pool
                })
                &&& final(ledger).pending_events@ == old(ledger).pending_events@.push(
                    LedgerEvent {
                        source: EventSource::Pool,
                        block: old(ledger).block.number,
                        kind: EventKind::WeightUpdate(final(ledger).pool.weight_x),
                    },
                )
                &&& final(ledger).block == old(ledger).block
                &&& final(ledger).oracle_price == old(ledger).oracle_price
                &&& final(ledger).balance_x == old(ledger).balance_x
                &&& final(ledger).balance_y == old(ledger).balance_y
            }),
            !old(self).spec_due() ==> ({
                &&& final(self).last_price == old(self).last_price
                &&& *final(ledger) == *old(ledger)
            }),
    {
        self.tick = if self.tick == u64::MAX {
            u64::MAX
        } else {
            self.tick + 1
        };
        if self.tick % self.update_frequency == 0 {
            let oracle: i64 = ledger.oracle_price;
            let moved: i64 = fixed::fx_abs(fixed::fx_sub(oracle, self.last_price));
            let denom_raw: i64 = fixed::fx_abs(self.last_price);
            let denom: i64 = if denom_raw < 1 {
                1
            } else {
                denom_raw
            };
            let realized: i64 = fixed::fx_div(moved, denom);
            let w: i64 = ledger.pool.weight_x;
            let target: i64 = if realized == 0 {
                w
            } else {
                let scaled: i64 = fixed::fx_mul(w, fixed::fx_div(self.target_volatility, realized));
                if scaled < MIN_WEIGHT {
                    MIN_WEIGHT
                } else if scaled > MAX_WEIGHT {
                    MAX_WEIGHT
                } else {
                    scaled
                }
            };
            ledger.set_weight(target);
            self.last_price = oracle;
        }
    }
}

/// With `update_frequency = k`, the rebalancer acts exactly on ticks
/// `k, 2k, 3k, ...`: the step taken after `tick` prior ticks performs a
/// rebalance if and only if `tick + 1` is a positive multiple of `k`,
/// and is a no-op on every other tick.
pub proof fn lemma_rebalance_cadence(w: WeightChanger)
    requires
        w.wf(),
        w.tick < u64::MAX,
    ensures
        w.spec_due() <==> exists|j: int|
            j >= 1 && w.tick + 1 == #[trigger] (j * (w.update_frequency as int)),
{
    let t: int = w.tick + 1;
    let k: int = w.update_frequency as int;
    assert(spec_sat_add_u64(w.tick as int, 1) == t);
    if t % k == 0 {
        vstd::arithmetic::div_mod::lemma_fundamental_div_mod(t, k);
        let j: int = t / k;
        assert(t == k * j);
        assert(j >= 1) by (nonlinear_arith)
            requires
                t == k * j,
                t >= 1,
                k >= 1,
        ;
        assert(t == j * k) by (nonlinear_arith)
            requires
                t == k * j,
        ;
    }
    if exists|j: int| j >= 1 && t == #[trigger] (j * k) {
        let j: int = choose|j: int| j >= 1 && t == #[trigger] (j * k);
        vstd::arithmetic::div_mod::lemma_mod_multiples_basic(j, k);
    }
}

/// A polymorphic agent role: the closed set of participants, each
/// responding to the same initialize / advance-one-step lifecycle.
#[derive(Clone, Debug, PartialEq)]
pub enum Agent {
    BlockAdmin(BlockAdmin),
    TokenAdmin(TokenAdmin),
    PriceChanger(PriceChanger),
    LiquidityProvider(LiquidityProvider),
    Arbitrageur(Arbitrageur),
    WeightChanger(WeightChanger),
}

impl Agent {
    /// Role-specific validity, as each role's methods require it.
    pub open spec fn wf(self) -> bool {
        match self {
            Agent::BlockAdmin(_) => true,
            Agent::TokenAdmin(t) => t.wf(),
            Agent::PriceChanger(p) => p.wf(),
            Agent::LiquidityProvider(_) => true,
            Agent::Arbitrageur(_) => true,
            Agent::WeightChanger(w) => w.wf(),
        }
    }

    /// Run the role's one-time startup work against the ledger. The
    /// roles with no startup work leave the ledger untouched.
    pub fn init(&mut self, ledger: &mut LedgerState) -> (r: Result<(), SimulationError>)
        requires
            (*old(self)).wf(),
        ensures
            r is Ok,
            (*final(self)).wf(),
            *final(self) == *old(self),
            (*old(self)) is TokenAdmin ==> final(ledger).balance_x as int
                == fixed::spec_fx_add(
                old(ledger).balance_x as int,
                (*old(self))->TokenAdmin_0.supply_x as int,
            ),
            (*old(self)) is LiquidityProvider ==> final(ledger).pool.reserve_x
                == (*old(self))->LiquidityProvider_0.x_liquidity,
            !((*old(self)) is TokenAdmin) && !((*old(self)) is LiquidityProvider)
                ==> *final(ledger) == *old(ledger),
    {
        match self {
            Agent::BlockAdmin(_) => Ok(()),
            Agent::TokenAdmin(t) => {
                t.fund(ledger);
                Ok(())
            },
            Agent::PriceChanger(_) => Ok(()),
            Agent::LiquidityProvider(l) => {
                l.startup(ledger);
                Ok(())
            },
            Agent::Arbitrageur(_) => Ok(()),
            Agent::WeightChanger(_) => Ok(()),
        }
    }

    /// Run the role's per-tick work against the ledger. The roles that
    /// act only at initialization leave everything untouched.
    pub fn step(&mut self, ledger: &mut LedgerState) -> (r: Result<(), SimulationError>)
        requires
            (*old(self)).wf(),
        ensures
            (*final(self)).wf(),
            (*old(self)) is PriceChanger ==> ({
                &&& (*final(self)) is PriceChanger
                &&& (r is Ok <==> (*old(self))->PriceChanger_0.index
                    < (*old(self))->PriceChanger_0.trajectory.paths@[0]@.len())
            }),
            !((*old(self)) is PriceChanger) ==> r is Ok,
            (*old(self)) is TokenAdmin || (*old(self)) is LiquidityProvider ==> ({
                &&& *final(self) == *old(self)
                &&& *final(ledger) == *old(ledger)
            }),
    {
        match self {
            Agent::BlockAdmin(b) => {
                b.update_block(ledger);
                Ok(())
            },
            Agent::TokenAdmin(_) => Ok(()),
            Agent::PriceChanger(p) => p.update_price(ledger),
            Agent::LiquidityProvider(_) => Ok(()),
            Agent::Arbitrageur(a) => {
                a.step(ledger);
                Ok(())
            },
            Agent::WeightChanger(w) => {
                w.step(ledger);
                Ok(())
            },
        }
    }
}

} // verus!
