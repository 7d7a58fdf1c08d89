//! Portfolio records.
//!
//! The serialized data structure for portfolios: named positions in
//! assets, each with an optional cost, balance, and target values.
//! Monetary quantities are fixed point ([`crate::fixed::SCALE`]); the
//! on-disk persistence of these records lives outside the library.

use vstd::prelude::*;
use crate::fixed::SCALE;

verus! {

/// A coin known to the application, identified by its ticker symbol.
#[derive(Clone, Debug, PartialEq)]
pub struct StaticCoin {
    pub symbol: String,
    pub name: String,
}

impl Default for StaticCoin {
    fn default() -> (r: Self)
        ensures
            r.symbol@ == Seq::<char>::empty(),
            r.name@ == Seq::<char>::empty(),
    {
        StaticCoin { symbol: String::new(), name: String::new() }
    }
}

/// A target value with a label: a portfolio weight, a volatility, or a
/// return, in fixed point.
#[derive(Clone, Copy, Debug, PartialEq, Eq, Structural)]
pub enum Targetable {
    Weight(i64),
    Volatility(i64),
    Return(i64),
}

impl Default for Targetable {
    /// The default target is a full weight of one.
    fn default() -> (r: Self)
        ensures
            r == Targetable::Weight(SCALE),
    {
        Targetable::Weight(SCALE)
    }
}

/// A position in a portfolio.
#[derive(Clone, Debug, PartialEq)]
pub struct Position {
    pub asset: StaticCoin,
    /// Acquisition cost, in fixed point.
    pub cost: Option<i64>,
    /// Held balance, in fixed point.
    pub balance: Option<i64>,
    pub targets: Option<Vec<Targetable>>,
}

impl Position {
    /// A position with no targets yet.
    pub fn new(asset: StaticCoin, cost: Option<i64>, balance: Option<i64>) -> (r: Position)
        ensures
            r.asset == asset,
            r.cost == cost,
            r.balance == balance,
            r.targets is None,
    {
        Position { asset, cost, balance, targets: None }
    }
}

/// A named portfolio: a list of positions and an optional benchmark.
#[derive(Clone, Debug, PartialEq)]
pub struct Portfolio {
    pub name: String,
    pub ticker: String,
    pub positions: Vec<Position>,
    /// Benchmark return, in fixed point.
    pub bench_mark: Option<i64>,
}

impl Portfolio {
    /// A portfolio with no benchmark yet.
    pub fn new(name: String, ticker: String, positions: Vec<Position>) -> (r: Portfolio)
        ensures
            r.name == name,
            r.ticker == ticker,
            r.positions == positions,
            r.bench_mark is None,
    {
        Portfolio { name, ticker, positions, bench_mark: None }
    }

    /// Append a position.
    pub fn add_position(&mut self, position: Position)
        ensures
            final(self).positions@ == old(self).positions@.push(position),
            final(self).name == old(self).name,
            final(self).ticker == old(self).ticker,
            final(self).bench_mark == old(self).bench_mark,
    {
        self.positions.push(position);
    }

    /// Remove the position at `index`, shifting the rest down.
    pub fn remove_position(&mut self, index: usize)
        requires
            index < old(self).positions@.len(),
        ensures
            final(self).positions@ == old(self).positions@.remove(index as int),
            final(self).name == old(self).name,
            final(self).ticker == old(self).ticker,
            final(self).bench_mark == old(self).bench_mark,
    {
        self.positions.remove(index);
    }

    /// Replace the position at `index`.
    pub fn update_position(&mut self, index: usize, position: Position)
        requires
            index < old(self).positions@.len(),
        ensures
            final(self).positions@ == old(self).positions@.update(index as int, position),
            final(self).name == old(self).name,
            final(self).ticker == old(self).ticker,
            final(self).bench_mark == old(self).bench_mark,
    {
        self.positions.set(index, position);
    }

    /// Replace the asset of the position at `index`.
    pub fn update_position_asset(&mut self, index: usize, asset: StaticCoin)
        requires
            index < old(self).positions@.len(),
        ensures
            final(self).positions@ == old(self).positions@.update(
                index as int,
                (Position { asset: asset, ..old(self).positions@[index as int] }),
            ),
            final(self).name == old(self).name,
            final(self).ticker == old(self).ticker,
            final(self).bench_mark == old(self).bench_mark,
    {
        let mut position: Position = self.positions.remove(index);
        position.asset = asset;
        self.positions.insert(index, position);
        proof {
            assert(self.positions@ =~= old(self).positions@.update(
                index as int,
                (Position { asset: asset, ..old(self).positions@[index as int] }),
            ));
        }
    }

    /// Replace the cost of the position at `index`.
    pub fn update_position_cost(&mut self, index: usize, cost: Option<i64>)
        requires
            index < old(self).positions@.len(),
        ensures
            final(self).positions@ == old(self).positions@.update(
                index as int,
                (Position { cost: cost, ..old(self).positions@[index as int] }),
            ),
            final(self).name == old(self).name,
            final(self).ticker == old(self).ticker,
            final(self).bench_mark == old(self).bench_mark,
    {
        let mut position: Position = self.positions.remove(index);
        position.cost = cost;
        self.positions.insert(index, position);
        proof {
            assert(self.positions@ =~= old(self).positions@.update(
                index as int,
                (Position { cost: cost, ..old(self).positions@[index as int] }),
            ));
        }
    }

    /// Replace the balance of the position at `index`.
    pub fn update_position_balance(&mut self, index: usize, balance: Option<i64>)
        requires
            index < old(self).positions@.len(),
        ensures
            final(self).positions@ == old(self).positions@.update(
                index as int,
                (Position { balance: balance, ..old(self).positions@[index as int] }),
            ),
            final(self).name == old(self).name,
            final(self).ticker == old(self).ticker,
            final(self).bench_mark == old(self).bench_mark,
    {
        let mut position: Position = self.positions.remove(index);
        position.balance = balance;
        self.positions.insert(index, position);
        proof {
            assert(self.positions@ =~= old(self).positions@.update(
                index as int,
                (Position { balance: balance, ..old(self).positions@[index as int] }),
            ));
        }
    }

    /// Replace the targets of the position at `index`.
    pub fn update_position_targets(&mut self, index: usize, targets: Option<Vec<Targetable>>)
        requires
            index < old(self).positions@.len(),
        ensures
            final(self).positions@ == old(self).positions@.update(
                index as int,
                (Position { targets: targets, ..old(self).positions@[index as int] }),
            ),
            final(self).name == old(self).name,
            final(self).ticker == old(self).ticker,
            final(self).bench_mark == old(self).bench_mark,
    {
        let mut position: Position = self.positions.remove(index);
        position.targets = targets;
        self.positions.insert(index, position);
        proof {
            assert(self.positions@ =~= old(self).positions@.update(
                index as int,
                (Position { targets: targets, ..old(self).positions@[index as int] }),
            ));
        }
    }

    /// The file-name prefix a saved portfolio uses: its name.
    pub fn prefix(&self) -> (r: Option<String>)
        ensures
            r is Some,
            r->Some_0@ == self.name@,
    {
        Some(self.name.clone())
    }
}

} // verus!
