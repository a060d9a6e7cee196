//! The trade ledger: the trades applied to a portfolio, and those undone
//! and still open to redo.

use vstd::prelude::*;

use crate::action::{Trade, TradeAction};
use crate::portfolio::{Portfolio, PortfolioState};

verus! {

/// What a ledger records, as mathematics: the trades applied, oldest first,
/// and the trades undone and not yet redone, the one undone last at the end.
#[verifier::ext_equal]
pub struct LedgerState {
    pub executed: Seq<Trade>,
    pub undone: Seq<Trade>,
}

impl LedgerState {
    /// The ledger in which nothing was ever executed.
    pub open spec fn empty() -> Self {
        LedgerState { executed: Seq::empty(), undone: Seq::empty() }
    }

    /// Whether there is a trade to undo.
    pub open spec fn can_undo(self) -> bool {
        self.executed.len() > 0
    }

    /// Whether there is a trade to redo.
    pub open spec fn can_redo(self) -> bool {
        self.undone.len() > 0
    }

    /// The ledger after `trade` is executed: the trade is the newest of the
    /// executed ones, and nothing is left to redo.
    pub open spec fn execute(self, trade: Trade) -> Self {
        LedgerState { executed: self.executed.push(trade), undone: Seq::empty() }
    }

    /// The ledger after an undo: the newest executed trade has moved to the
    /// end of the undone ones. Without a trade to undo, the ledger itself.
    pub open spec fn undo(self) -> Self {
        if self.can_undo() {
            LedgerState {
                executed: self.executed.drop_last(),
                undone: self.undone.push(self.executed.last()),
            }
        } else {
            self
        }
    }

    /// The ledger after a redo: the trade undone last has moved back to the
    /// end of the executed ones. Without a trade to redo, the ledger itself.
    pub open spec fn redo(self) -> Self {
        if self.can_redo() {
            LedgerState {
                executed: self.executed.push(self.undone.last()),
                undone: self.undone.drop_last(),
            }
        } else {
            self
        }
    }

    /// What an undo on this ledger makes of a portfolio: the newest executed
    /// trade is taken back from it, if there is one.
    pub open spec fn portfolio_after_undo(self, portfolio: PortfolioState) -> PortfolioState {
        if self.can_undo() {
            portfolio.revert(self.executed.last())
        } else {
            portfolio
        }
    }

    /// What a redo on this ledger makes of a portfolio: the trade undone last
    /// is applied to it again, if there is one.
    pub open spec fn portfolio_after_redo(self, portfolio: PortfolioState) -> PortfolioState {
        if self.can_redo() {
            portfolio.apply(self.undone.last())
        } else {
            portfolio
        }
    }

    /// Whether an undo on this ledger stays within the machine types of the
    /// portfolio.
    pub open spec fn undo_fits(self, portfolio: PortfolioState) -> bool {
        self.can_undo() ==> portfolio.accepts_reversal(self.executed.last())
    }

    /// Whether a redo on this ledger stays within the machine types of the
    /// portfolio.
    pub open spec fn redo_fits(self, portfolio: PortfolioState) -> bool {
        self.can_redo() ==> portfolio.accepts(self.undone.last())
    }
}

/// The trades that a sequence of actions stands for.
pub open spec fn trades(actions: Seq<TradeAction>) -> Seq<Trade> {
    actions.map_values(|action: TradeAction| action@)
}

/// An ordered record of the trades applied to a portfolio, with a redo
/// buffer. The ledger keeps no reference to the portfolio: each operation is
/// handed the portfolio it works on.
#[derive(Debug)]
pub struct TradeLedger {
    executed: Vec<TradeAction>,
    undone: Vec<TradeAction>,
}

impl View for TradeLedger {
    type V = LedgerState;

    closed spec fn view(&self) -> LedgerState {
        LedgerState { executed: trades(self.executed@), undone: trades(self.undone@) }
    }
}

impl TradeLedger {
    /// A ledger with nothing executed and nothing undone.
    pub fn new() -> (ledger: Self)
        ensures
            ledger@ == LedgerState::empty(),
    {
        TradeLedger { executed: Vec::new(), undone: Vec::new() }
    }

    /// Applies `action` to the portfolio and records it as the newest
    /// executed trade. Whatever was open to redo is dropped.
    pub fn execute(&mut self, action: TradeAction, portfolio: &mut Portfolio)
        requires
            old(portfolio)@.accepts(action@),
        ensures
            final(self)@ == old(self)@.execute(action@),
            final(portfolio)@ == old(portfolio)@.apply(action@),
    {
        action.execute(portfolio);
        self.executed.push(action);
        self.undone.clear();
    }

    /// Takes the newest executed trade back from the portfolio and keeps it
    /// for redo. Returns whether there was a trade to undo; without one,
    /// nothing changes.
    pub fn undo(&mut self, portfolio: &mut Portfolio) -> (done: bool)
        requires
            old(self)@.undo_fits(old(portfolio)@),
        ensures
            done == old(self)@.can_undo(),
            final(self)@ == old(self)@.undo(),
            final(portfolio)@ == old(self)@.portfolio_after_undo(old(portfolio)@),
    {
        match self.executed.pop() {
            Some(action) => {
                action.undo(portfolio);
                self.undone.push(action);
                true
            },
            None => false,
        }
    }

    /// Applies the trade undone last to the portfolio again and records it
    /// as the newest executed trade. Returns whether there was a trade to
    /// redo; without one, nothing changes.
    pub fn redo(&mut self, portfolio: &mut Portfolio) -> (done: bool)
        requires
            old(self)@.redo_fits(old(portfolio)@),
        ensures
            done == old(self)@.can_redo(),
            final(self)@ == old(self)@.redo(),
            final(portfolio)@ == old(self)@.portfolio_after_redo(old(portfolio)@),
    {
        match self.undone.pop() {
            Some(action) => {
                action.execute(portfolio);
                self.executed.push(action);
                true
            },
            None => false,
        }
    }

    /// Whether an undo now would stay within the machine types of
    /// `portfolio`. It always does when there is nothing to undo.
    pub fn undo_fits(&self, portfolio: &Portfolio) -> (fits: bool)
        ensures
            fits == self@.undo_fits(portfolio@),
    {
        let count = self.executed.len();
        if count == 0 {
            true
        } else {
            portfolio.accepts_reversal(&self.executed[count - 1])
        }
    }

    /// Whether a redo now would stay within the machine types of
    /// `portfolio`. It always does when there is nothing to redo.
    pub fn redo_fits(&self, portfolio: &Portfolio) -> (fits: bool)
        ensures
            fits == self@.redo_fits(portfolio@),
    {
        let count = self.undone.len();
        if count == 0 {
            true
        } else {
            portfolio.accepts(&self.undone[count - 1])
        }
    }

    /// An independent copy of the ledger: both sequences are copied trade by
    /// trade, so that neither ledger sees what later happens to the other.
    pub fn snapshot(&self) -> (copy: Self)
        ensures
            copy@ == self@,
    {
        TradeLedger { executed: self.executed.clone(), undone: self.undone.clone() }
    }

    /// The executed trades, oldest first.
    pub fn executed(&self) -> (actions: &Vec<TradeAction>)
        ensures
            trades(actions@) == self@.executed,
    {
        &self.executed
    }

    /// The trades open to redo; the one undone last is at the end.
    pub fn undone(&self) -> (actions: &Vec<TradeAction>)
        ensures
            trades(actions@) == self@.undone,
    {
        &self.undone
    }
}

impl Clone for TradeLedger {
    fn clone(&self) -> (copy: Self)
        ensures
            copy@ == self@,
    {
        self.snapshot()
    }
}

} // verus!
