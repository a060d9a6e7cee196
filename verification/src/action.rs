//! Trade actions: immutable records of a buy or sell instruction.

use vstd::prelude::*;

use crate::portfolio::Portfolio;

verus! {

/// The mathematical content of a trade action: which way it goes, the symbol
/// traded, the number of shares, and the price of one share in minor units.
pub enum Trade {
    Buy { symbol: Seq<char>, quantity: int, price: int },
    Sell { symbol: Seq<char>, quantity: int, price: int },
}

impl Trade {
    /// The symbol that the trade is in.
    pub open spec fn symbol(self) -> Seq<char> {
        match self {
            Trade::Buy { symbol, .. } => symbol,
            Trade::Sell { symbol, .. } => symbol,
        }
    }
}

/// A buy or sell instruction. Once built it is only read; two actions are the
/// same when their fields are.
#[derive(Debug)]
pub enum TradeAction {
    Buy { symbol: String, quantity: i32, price: i64 },
    Sell { symbol: String, quantity: i32, price: i64 },
}

impl View for TradeAction {
    type V = Trade;

    open spec fn view(&self) -> Trade {
        match *self {
            TradeAction::Buy { symbol, quantity, price } => Trade::Buy {
                symbol: symbol@,
                quantity: quantity as int,
                price: price as int,
            },
            TradeAction::Sell { symbol, quantity, price } => Trade::Sell {
                symbol: symbol@,
                quantity: quantity as int,
                price: price as int,
            },
        }
    }
}

impl TradeAction {
    /// Applies the action to the portfolio: a buy buys, a sale sells.
    pub fn execute(&self, portfolio: &mut Portfolio)
        requires
            old(portfolio)@.accepts(self@),
        ensures
            final(portfolio)@ == old(portfolio)@.apply(self@),
    {
        match self {
            TradeAction::Buy { symbol, quantity, price } => {
                portfolio.buy(symbol.as_str(), *quantity, *price)
            },
            TradeAction::Sell { symbol, quantity, price } => {
                portfolio.sell(symbol.as_str(), *quantity, *price)
            },
        }
    }

    /// Takes the action back from the portfolio: the exact inverse of
    /// `execute`.
    pub fn undo(&self, portfolio: &mut Portfolio)
        requires
            old(portfolio)@.accepts_reversal(self@),
        ensures
            final(portfolio)@ == old(portfolio)@.revert(self@),
    {
        match self {
            TradeAction::Buy { symbol, quantity, price } => {
                portfolio.reverse_buy(symbol.as_str(), *quantity, *price)
            },
            TradeAction::Sell { symbol, quantity, price } => {
                portfolio.reverse_sell(symbol.as_str(), *quantity, *price)
            },
        }
    }
}

impl Clone for TradeAction {
    fn clone(&self) -> (copy: Self)
        ensures
            copy == *self,
    {
        match self {
            TradeAction::Buy { symbol, quantity, price } => TradeAction::Buy {
                symbol: symbol.clone(),
                quantity: *quantity,
                price: *price,
            },
            TradeAction::Sell { symbol, quantity, price } => TradeAction::Sell {
                symbol: symbol.clone(),
                quantity: *quantity,
                price: *price,
            },
        }
    }
}

impl PartialEq for TradeAction {
    fn eq(&self, other: &Self) -> (same: bool) {
        match self {
            TradeAction::Buy { symbol, quantity, price } => match other {
                TradeAction::Buy { symbol: s, quantity: q, price: p } => {
                    *quantity == *q && *price == *p && *symbol == *s
                },
                TradeAction::Sell { .. } => false,
            },
            TradeAction::Sell { symbol, quantity, price } => match other {
                TradeAction::Buy { .. } => false,
                TradeAction::Sell { symbol: s, quantity: q, price: p } => {
                    *quantity == *q && *price == *p && *symbol == *s
                },
            },
        }
    }
}

impl vstd::std_specs::cmp::PartialEqSpecImpl for TradeAction {
    open spec fn obeys_eq_spec() -> bool {
        true
    }

    open spec fn eq_spec(&self, other: &Self) -> bool {
        self@ == other@
    }
}

impl Eq for TradeAction {
}

} // verus!
