//! The portfolio: a cash balance and a share count per symbol.

use vstd::prelude::*;

use crate::action::{Trade, TradeAction};
use crate::positions::Positions;

verus! {

/// What a portfolio holds, as mathematics: a share count for every symbol
/// (zero for a symbol never traded) and a cash balance in minor units. Both
/// are signed: short positions and a negative balance are allowed.
#[verifier::ext_equal]
pub struct PortfolioState {
    pub shares: Map<Seq<char>, int>,
    pub cash: int,
}

impl PortfolioState {
    /// Every symbol has a share count.
    pub open spec fn wf(self) -> bool {
        forall|symbol: Seq<char>| self.shares.dom().contains(symbol)
    }

    /// Whether the state fits the machine types: every share count in `i32`,
    /// the cash in `i64`.
    pub open spec fn fits(self) -> bool {
        &&& forall|symbol: Seq<char>| i32::MIN <= #[trigger] self.shares[symbol] <= i32::MAX
        &&& i64::MIN <= self.cash <= i64::MAX
    }

    /// A fresh portfolio: the given cash and no shares of anything.
    pub open spec fn opening(cash: int) -> Self {
        PortfolioState { shares: Map::total(|symbol: Seq<char>| 0int), cash }
    }

    /// The state with `share_delta` more shares of `symbol` and `cash_delta`
    /// more cash.
    pub open spec fn shift(self, symbol: Seq<char>, share_delta: int, cash_delta: int) -> Self {
        PortfolioState {
            shares: self.shares.insert(symbol, self.shares[symbol] + share_delta),
            cash: self.cash + cash_delta,
        }
    }

    /// Whether the state after such a shift still fits the machine types: the
    /// symbol's share count in `i32`, the cash in `i64`.
    pub open spec fn can_shift(self, symbol: Seq<char>, share_delta: int, cash_delta: int) -> bool {
        &&& i32::MIN <= self.shares[symbol] + share_delta <= i32::MAX
        &&& i64::MIN <= self.cash + cash_delta <= i64::MAX
    }

    /// Buying: `quantity` more shares, `quantity * price` less cash.
    pub open spec fn buy(self, symbol: Seq<char>, quantity: int, price: int) -> Self {
        self.shift(symbol, quantity, -(quantity * price))
    }

    /// Selling: `quantity` fewer shares, `quantity * price` more cash.
    pub open spec fn sell(self, symbol: Seq<char>, quantity: int, price: int) -> Self {
        self.shift(symbol, -quantity, quantity * price)
    }

    /// Taking a buy back: `quantity` fewer shares, `quantity * price` more cash.
    pub open spec fn reverse_buy(self, symbol: Seq<char>, quantity: int, price: int) -> Self {
        self.shift(symbol, -quantity, quantity * price)
    }

    /// Taking a sale back: `quantity` more shares, `quantity * price` less cash.
    pub open spec fn reverse_sell(self, symbol: Seq<char>, quantity: int, price: int) -> Self {
        self.shift(symbol, quantity, -(quantity * price))
    }

    /// Whether the shares and the cash after such a buy, or after taking such
    /// a sale back, fit the machine types.
    pub open spec fn can_buy(self, symbol: Seq<char>, quantity: int, price: int) -> bool {
        self.can_shift(symbol, quantity, -(quantity * price))
    }

    /// Whether the shares and the cash after such a sale, or after taking
    /// such a buy back, fit the machine types.
    pub open spec fn can_sell(self, symbol: Seq<char>, quantity: int, price: int) -> bool {
        self.can_shift(symbol, -quantity, quantity * price)
    }

    /// The state after the trade is applied.
    pub open spec fn apply(self, trade: Trade) -> Self {
        match trade {
            Trade::Buy { symbol, quantity, price } => self.buy(symbol, quantity, price),
            Trade::Sell { symbol, quantity, price } => self.sell(symbol, quantity, price),
        }
    }

    /// The state after the trade is taken back.
    pub open spec fn revert(self, trade: Trade) -> Self {
        match trade {
            Trade::Buy { symbol, quantity, price } => self.reverse_buy(symbol, quantity, price),
            Trade::Sell { symbol, quantity, price } => self.reverse_sell(symbol, quantity, price),
        }
    }

    /// Whether the trade can be applied within the machine types.
    pub open spec fn accepts(self, trade: Trade) -> bool {
        match trade {
            Trade::Buy { symbol, quantity, price } => self.can_buy(symbol, quantity, price),
            Trade::Sell { symbol, quantity, price } => self.can_sell(symbol, quantity, price),
        }
    }

    /// Whether the trade can be taken back within the machine types.
    pub open spec fn accepts_reversal(self, trade: Trade) -> bool {
        match trade {
            Trade::Buy { symbol, quantity, price } => self.can_sell(symbol, quantity, price),
            Trade::Sell { symbol, quantity, price } => self.can_buy(symbol, quantity, price),
        }
    }
}

/// Whether some entry of `entries` is for `symbol`.
pub open spec fn names_symbol(entries: Seq<(String, i32)>, symbol: Seq<char>) -> bool {
    exists|i: int| 0 <= i < entries.len() && (#[trigger] entries[i]).0@ == symbol
}

/// Whether `entries` lists the holdings in `shares`: an entry for each symbol
/// whose share count is not zero, with that count, and no two entries for one
/// symbol.
pub open spec fn lists_holdings(entries: Seq<(String, i32)>, shares: Map<Seq<char>, int>) -> bool {
    &&& forall|i: int|
        0 <= i < entries.len() ==> (#[trigger] entries[i]).1 != 0 && shares[entries[i].0@]
            == entries[i].1
    &&& forall|symbol: Seq<char>|
        (#[trigger] shares[symbol]) != 0 ==> names_symbol(entries, symbol)
    &&& forall|i: int, j: int|
        0 <= i < j < entries.len() ==> (#[trigger] entries[i]).0@ != (#[trigger] entries[j]).0@
}

/// A cash balance and the positions bought and sold with it.
pub struct Portfolio {
    positions: Positions,
    cash: i64,
}

/// The product of a share count and a price fits in 128 bits with room to
/// add a cash balance to it.
proof fn lemma_amount_bounds(quantity: int, price: int)
    requires
        i32::MIN <= quantity <= i32::MAX,
        i64::MIN <= price <= i64::MAX,
    ensures
        -0x4000_0000_0000_0000_0000_0000 <= quantity * price <= 0x4000_0000_0000_0000_0000_0000,
{
    assert(-0x4000_0000_0000_0000_0000_0000 <= quantity * price
        <= 0x4000_0000_0000_0000_0000_0000) by (nonlinear_arith)
        requires
            -0x8000_0000 <= quantity <= 0x8000_0000,
            -0x8000_0000_0000_0000 <= price <= 0x8000_0000_0000_0000,
    ;
}

impl View for Portfolio {
    type V = PortfolioState;

    closed spec fn view(&self) -> PortfolioState {
        PortfolioState { shares: self.positions@, cash: self.cash as int }
    }
}

impl Portfolio {
    #[verifier::type_invariant]
    spec fn inv(self) -> bool {
        self.positions.wf()
    }

    /// A portfolio with the given cash and no positions.
    pub fn new(cash: i64) -> (portfolio: Self)
        ensures
            portfolio@ == PortfolioState::opening(cash as int),
    {
        Portfolio { positions: Positions::new(), cash }
    }

    /// The cash balance, in minor units.
    pub fn cash(&self) -> (cash: i64)
        ensures
            cash == self@.cash,
    {
        self.cash
    }

    /// The number of shares held of `symbol`: zero if it was never traded,
    /// negative for a short position.
    pub fn position(&self, symbol: &str) -> (shares: i32)
        ensures
            shares == self@.shares[symbol@],
    {
        self.positions.get(symbol)
    }

    /// The holdings: each symbol whose share count is not zero, once, with
    /// its count. Symbols traded back to zero are left out.
    pub fn holdings(&self) -> (entries: Vec<(String, i32)>)
        ensures
            lists_holdings(entries@, self@.shares),
    {
        proof {
            use_type_invariant(self);
        }
        self.positions.nonzero()
    }

    /// Every symbol has a share count in the portfolio's state, and the
    /// state fits the machine types.
    pub proof fn lemma_state_fits(&self)
        ensures
            self@.wf(),
            self@.fits(),
    {
        self.positions.lemma_view_total();
    }

    /// Whether `qty` shares of `symbol` at `price` each can move within the
    /// machine types: into the portfolio against cash if `acquiring`, out of
    /// it for cash if not.
    fn can_settle(&self, symbol: &str, qty: i32, price: i64, acquiring: bool) -> (fits: bool)
        ensures
            acquiring ==> fits == self@.can_buy(symbol@, qty as int, price as int),
            !acquiring ==> fits == self@.can_sell(symbol@, qty as int, price as int),
    {
        proof {
            lemma_amount_bounds(qty as int, price as int);
        }
        let held: i64 = self.positions.get(symbol) as i64;
        let amount: i128 = (qty as i128) * (price as i128);
        let shares: i64 = if acquiring {
            held + qty as i64
        } else {
            held - qty as i64
        };
        let cash: i128 = if acquiring {
            self.cash as i128 - amount
        } else {
            self.cash as i128 + amount
        };
        i32::MIN as i64 <= shares && shares <= i32::MAX as i64 && i64::MIN as i128 <= cash && cash
            <= i64::MAX as i128
    }

    /// Moves `qty` shares of `symbol` at `price` each: into the portfolio
    /// against cash if `acquiring`, out of it for cash if not.
    fn settle(&mut self, symbol: &str, qty: i32, price: i64, acquiring: bool)
        requires
            acquiring ==> old(self)@.can_buy(symbol@, qty as int, price as int),
            !acquiring ==> old(self)@.can_sell(symbol@, qty as int, price as int),
        ensures
            acquiring ==> final(self)@ == old(self)@.buy(symbol@, qty as int, price as int),
            !acquiring ==> final(self)@ == old(self)@.sell(symbol@, qty as int, price as int),
    {
        proof {
            use_type_invariant(&*self);
            lemma_amount_bounds(qty as int, price as int);
        }
        let held: i32 = self.positions.get(symbol);
        let amount: i128 = (qty as i128) * (price as i128);
        let shares: i32 = if acquiring {
            held + qty
        } else {
            held - qty
        };
        let cash: i128 = if acquiring {
            self.cash as i128 - amount
        } else {
            self.cash as i128 + amount
        };
        let mut positions = Positions::new();
        std::mem::swap(&mut positions, &mut self.positions);
        positions.set(symbol, shares);
        self.positions = positions;
        self.cash = cash as i64;
    }

    /// Buys `qty` shares of `symbol` at `price` each: the symbol's share
    /// count grows by `qty` and the cash shrinks by `qty * price`. Nothing is
    /// validated: a quantity of zero or less and a negative price are taken
    /// as they are.
    pub fn buy(&mut self, symbol: &str, qty: i32, price: i64)
        requires
            old(self)@.can_buy(symbol@, qty as int, price as int),
        ensures
            final(self)@ == old(self)@.buy(symbol@, qty as int, price as int),
    {
        self.settle(symbol, qty, price, true);
    }

    /// Sells `qty` shares of `symbol` at `price` each: the symbol's share
    /// count shrinks by `qty`, below zero if need be, and the cash grows by
    /// `qty * price`.
    pub fn sell(&mut self, symbol: &str, qty: i32, price: i64)
        requires
            old(self)@.can_sell(symbol@, qty as int, price as int),
        ensures
            final(self)@ == old(self)@.sell(symbol@, qty as int, price as int),
    {
        self.settle(symbol, qty, price, false);
    }

    /// Takes back a buy of `qty` shares of `symbol` at `price` each: the
    /// share count shrinks by `qty` and the cash grows by `qty * price`.
    pub fn reverse_buy(&mut self, symbol: &str, qty: i32, price: i64)
        requires
            old(self)@.can_sell(symbol@, qty as int, price as int),
        ensures
            final(self)@ == old(self)@.reverse_buy(symbol@, qty as int, price as int),
    {
        self.settle(symbol, qty, price, false);
    }

    /// Takes back a sale of `qty` shares of `symbol` at `price` each: the
    /// share count grows by `qty` and the cash shrinks by `qty * price`.
    pub fn reverse_sell(&mut self, symbol: &str, qty: i32, price: i64)
        requires
            old(self)@.can_buy(symbol@, qty as int, price as int),
        ensures
            final(self)@ == old(self)@.reverse_sell(symbol@, qty as int, price as int),
    {
        self.settle(symbol, qty, price, true);
    }

    /// Whether `action` can be applied to this portfolio within the machine
    /// types.
    pub fn accepts(&self, action: &TradeAction) -> (fits: bool)
        ensures
            fits == self@.accepts(action@),
    {
        match action {
            TradeAction::Buy { symbol, quantity, price } => {
                self.can_settle(symbol.as_str(), *quantity, *price, true)
            },
            TradeAction::Sell { symbol, quantity, price } => {
                self.can_settle(symbol.as_str(), *quantity, *price, false)
            },
        }
    }

    /// Whether `action` can be taken back from this portfolio within the
    /// machine types.
    pub fn accepts_reversal(&self, action: &TradeAction) -> (fits: bool)
        ensures
            fits == self@.accepts_reversal(action@),
    {
        match action {
            TradeAction::Buy { symbol, quantity, price } => {
                self.can_settle(symbol.as_str(), *quantity, *price, false)
            },
            TradeAction::Sell { symbol, quantity, price } => {
                self.can_settle(symbol.as_str(), *quantity, *price, true)
            },
        }
    }
}

} // verus!
