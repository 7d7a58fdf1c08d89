//! The in-process ledger model.
//!
//! The execution environment holding authoritative contract state is an
//! external collaborator: it executes calls synchronously and
//! deterministically when the scheduler invokes it. This module models
//! exactly the interface the agents consume — a block clock, a price
//! oracle, one pool, token balances, and a stream of state-change
//! events — as a single owned resource that the scheduler passes by
//! reference into each agent's call. Inter-agent effects occur only
//! through this state.

use vstd::prelude::*;

verus! {

/// The simulated block clock.
#[derive(Clone, Copy, Debug, PartialEq, Eq, Structural)]
pub struct Block {
    pub number: u64,
    pub timestamp: u64,
}

/// Which ledger-resident contract emitted an event.
#[derive(Clone, Copy, Debug, PartialEq, Eq, Structural)]
pub enum EventSource {
    /// The liquid-exchange price oracle.
    Lex,
    /// The weighted pool.
    Pool,
}

/// A state change observable from outside the ledger.
#[derive(Clone, Copy, Debug, PartialEq, Eq, Structural)]
pub enum EventKind {
    /// The oracle price was set to this value.
    PriceUpdate(i64),
    /// The pool's quoted price moved from the first value to the second.
    Swap(i64, i64),
    /// The pool's weight on the risky asset was set to this value.
    WeightUpdate(i64),
    /// The pool was seeded with these reserves.
    LiquidityAdded(i64, i64),
}

/// One emitted event, stamped with the block at which it happened.
#[derive(Clone, Copy, Debug, PartialEq, Eq, Structural)]
pub struct LedgerEvent {
    pub source: EventSource,
    pub block: u64,
    pub kind: EventKind,
}

/// The pool the economic agents trade against. Its internal pricing curve
/// is outside this engine's scope, so the quoted price is carried as
/// state that swaps move.
#[derive(Clone, Copy, Debug, PartialEq, Eq, Structural)]
pub struct PoolState {
    pub reserve_x: i64,
    pub reserve_y: i64,
    /// Portfolio weight on the risky asset, in fixed point.
    pub weight_x: i64,
    /// Swap fee in basis points.
    pub fee_basis_points: u64,
    /// Quoted spot price, in fixed point.
    pub spot_price: i64,
}

/// Saturating `u64` addition.
pub open spec fn spec_sat_add_u64(a: int, b: int) -> int {
    if a + b > u64::MAX as int {
        u64::MAX as int
    } else {
        a + b
    }
}

fn sat_add_u64(a: u64, b: u64) -> (r: u64)
    ensures
        r as int == spec_sat_add_u64(a as int, b as int),
{
    if a > u64::MAX - b {
        u64::MAX
    } else {
        a + b
    }
}

/// The whole ledger-visible state of one run.
pub struct LedgerState {
    pub block: Block,
    /// The oracle's reference price, in fixed point.
    pub oracle_price: i64,
    pub pool: PoolState,
    /// Minted balance of the risky token available to the agents.
    pub balance_x: i64,
    /// Minted balance of the quote token available to the agents.
    pub balance_y: i64,
    /// Events emitted since the recorder last drained them, oldest first.
    pub pending_events: Vec<LedgerEvent>,
}

impl LedgerState {
    /// A fresh ledger with the oracle and the pool quoting `initial_price`,
    /// an unfunded pool, and no pending events.
    pub fn new(initial_price: i64, fee_basis_points: u64, weight_x: i64) -> (r: LedgerState)
        ensures
            r.block == (Block { number: 0, timestamp: 0 }),
            r.oracle_price == initial_price,
            r.pool == (PoolState {
                reserve_x: 0,
                reserve_y: 0,
                weight_x: weight_x,
                fee_basis_points: fee_basis_points,
                spot_price: initial_price,
            }),
            r.balance_x == 0,
            r.balance_y == 0,
            r.pending_events@ == Seq::<LedgerEvent>::empty(),
    {
        LedgerState {
            block: Block { number: 0, timestamp: 0 },
            oracle_price: initial_price,
            pool: PoolState {
                reserve_x: 0,
                reserve_y: 0,
                weight_x,
                fee_basis_points,
                spot_price: initial_price,
            },
            balance_x: 0,
            balance_y: 0,
            pending_events: Vec::new(),
        }
    }

    /// Advance the block number by one and the timestamp by `timestep`,
    /// saturating at the clock's range.
    pub fn advance_block(&mut self, timestep: u64)
        ensures
            final(self).block.number as int == spec_sat_add_u64(old(self).block.number as int, 1),
            final(self).block.timestamp as int == spec_sat_add_u64(
                old(self).block.timestamp as int,
                timestep as int,
            ),
            final(self).oracle_price == old(self).oracle_price,
            final(self).pool == old(self).pool,
            final(self).balance_x == old(self).balance_x,
            final(self).balance_y == old(self).balance_y,
            final(self).pending_events@ == old(self).pending_events@,
    {
        let number: u64 = sat_add_u64(self.block.number, 1);
        let timestamp: u64 = sat_add_u64(self.block.timestamp, timestep);
        self.block = Block { number, timestamp };
    }

    /// Set the oracle price; the oracle emits a `PriceUpdate` event.
    pub fn set_oracle_price(&mut self, price: i64)
        ensures
            final(self).oracle_price == price,
            final(self).pending_events@ == old(self).pending_events@.push(LedgerEvent {
                source: EventSource::Lex,
                block: old(self).block.number,
                kind: EventKind::PriceUpdate(price),
            }),
            final(self).block == old(self).block,
            final(self).pool == old(self).pool,
            final(self).balance_x == old(self).balance_x,
            final(self).balance_y == old(self).balance_y,
    {
        self.oracle_price = price;
        let event = LedgerEvent {
            source: EventSource::Lex,
            block: self.block.number,
            kind: EventKind::PriceUpdate(price),
        };
        self.pending_events.push(event);
    }

    /// Move the pool's quoted price to `target` by a swap; the pool emits
    /// a `Swap` event recording both prices.
    pub fn swap_to_price(&mut self, target: i64)
        ensures
            final(self).pool == (PoolState { spot_price: target, ..old(self).pool }),
            final(self).pending_events@ == old(self).pending_events@.push(LedgerEvent {
                source: EventSource::Pool,
                block: old(self).block.number,
                kind: EventKind::Swap(old(self).pool.spot_price, target),
            }),
            final(self).block == old(self).block,
            final(self).oracle_price == old(self).oracle_price,
            final(self).balance_x == old(self).balance_x,
            final(self).balance_y == old(self).balance_y,
    {
        let event = LedgerEvent {
            source: EventSource::Pool,
            block: self.block.number,
            kind: EventKind::Swap(self.pool.spot_price, target),
        };
        self.pool = PoolState { spot_price: target, ..self.pool };
        self.pending_events.push(event);
    }

    /// Set the pool's weight on the risky asset; the pool emits a
    /// `WeightUpdate` event.
    pub fn set_weight(&mut self, weight_x: i64)
        ensures
            final(self).pool == (PoolState { weight_x: weight_x, ..old(self).pool }),
            final(self).pending_events@ == old(self).pending_events@.push(LedgerEvent {
                source: EventSource::Pool,
                block: old(self).block.number,
                kind: EventKind::WeightUpdate(weight_x),
            }),
            final(self).block == old(self).block,
            final(self).oracle_price == old(self).oracle_price,
            final(self).balance_x == old(self).balance_x,
            final(self).balance_y == old(self).balance_y,
    {
        let event = LedgerEvent {
            source: EventSource::Pool,
            block: self.block.number,
            kind: EventKind::WeightUpdate(weight_x),
        };
        self.pool = PoolState { weight_x, ..self.pool };
        self.pending_events.push(event);
    }

    /// Seed the pool with reserves at a quoted price; the pool emits a
    /// `LiquidityAdded` event.
    pub fn init_pool(&mut self, reserve_x: i64, reserve_y: i64, price: i64)
        ensures
            final(self).pool == (PoolState {
                reserve_x: reserve_x,
                reserve_y: reserve_y,
                spot_price: price,
                ..old(self).pool
            }),
            final(self).pending_events@ == old(self).pending_events@.push(LedgerEvent {
                source: EventSource::Pool,
                block: old(self).block.number,
                kind: EventKind::LiquidityAdded(reserve_x, reserve_y),
            }),
            final(self).block == old(self).block,
            final(self).oracle_price == old(self).oracle_price,
            final(self).balance_x == old(self).balance_x,
            final(self).balance_y == old(self).balance_y,
    {
        let event = LedgerEvent {
            source: EventSource::Pool,
            block: self.block.number,
            kind: EventKind::LiquidityAdded(reserve_x, reserve_y),
        };
        self.pool = PoolState {
            reserve_x,
            reserve_y,
            spot_price: price,
            ..self.pool
        };
        self.pending_events.push(event);
    }

    /// Mint token balances for the agents, saturating at the type's range.
    pub fn mint(&mut self, amount_x: i64, amount_y: i64)
        requires
            amount_x >= 0,
            amount_y >= 0,
        ensures
            final(self).balance_x as int == crate::fixed::spec_fx_add(
                old(self).balance_x as int,
                amount_x as int,
            ),
            final(self).balance_y as int == crate::fixed::spec_fx_add(
                old(self).balance_y as int,
                amount_y as int,
            ),
            final(self).block == old(self).block,
            final(self).oracle_price == old(self).oracle_price,
            final(self).pool == old(self).pool,
            final(self).pending_events@ == old(self).pending_events@,
    {
        self.balance_x = crate::fixed::fx_add(self.balance_x, amount_x);
        self.balance_y = crate::fixed::fx_add(self.balance_y, amount_y);
    }

    /// Hand out every pending event, oldest first, and clear the queue.
    pub fn drain_events(&mut self) -> (r: Vec<LedgerEvent>)
        ensures
            r@ == old(self).pending_events@,
            final(self).pending_events@ == Seq::<LedgerEvent>::empty(),
            final(self).block == old(self).block,
            final(self).oracle_price == old(self).oracle_price,
            final(self).pool == old(self).pool,
            final(self).balance_x == old(self).balance_x,
            final(self).balance_y == old(self).balance_y,
    {
        let mut drained: Vec<LedgerEvent> = Vec::new();
        std::mem::swap(&mut drained, &mut self.pending_events);
        drained
    }
}

} // verus!
