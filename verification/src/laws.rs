//! What holds of the portfolio and the ledger whatever the trades are.

use vstd::prelude::*;

use crate::action::Trade;
use crate::ledger::LedgerState;
use crate::portfolio::PortfolioState;

verus! {

/// The portfolio after the trades are applied to `start`, oldest first.
pub open spec fn replay(start: PortfolioState, trades: Seq<Trade>) -> PortfolioState
    decreases trades.len(),
{
    if trades.len() == 0 {
        start
    } else {
        replay(start, trades.drop_last()).apply(trades.last())
    }
}

/// Ledger and portfolio after the trades are executed one after the other,
/// oldest first.
pub open spec fn execute_all(
    ledger: LedgerState,
    portfolio: PortfolioState,
    trades: Seq<Trade>,
) -> (LedgerState, PortfolioState)
    decreases trades.len(),
{
    if trades.len() == 0 {
        (ledger, portfolio)
    } else {
        let (earlier, held) = execute_all(ledger, portfolio, trades.drop_last());
        (earlier.execute(trades.last()), held.apply(trades.last()))
    }
}

/// Ledger and portfolio after `count` undos in a row.
pub open spec fn undo_times(ledger: LedgerState, portfolio: PortfolioState, count: nat) -> (
    LedgerState,
    PortfolioState,
)
    decreases count,
{
    if count == 0 {
        (ledger, portfolio)
    } else {
        undo_times(ledger.undo(), ledger.portfolio_after_undo(portfolio), (count - 1) as nat)
    }
}

/// Whether `portfolio` is what the executed trades of `ledger` make of
/// `start`.
pub open spec fn tracks(ledger: LedgerState, start: PortfolioState, portfolio: PortfolioState) -> bool {
    portfolio == replay(start, ledger.executed)
}

/// A buy followed by its reversal leaves share counts and cash as they were,
/// and the reversal stays within the machine types if the portfolio was
/// within them before the buy.
pub proof fn lemma_buy_then_reverse_buy(
    portfolio: PortfolioState,
    symbol: Seq<char>,
    quantity: int,
    price: int,
)
    requires
        portfolio.wf(),
    ensures
        portfolio.buy(symbol, quantity, price).reverse_buy(symbol, quantity, price) == portfolio,
        portfolio.fits() ==> portfolio.buy(symbol, quantity, price).can_sell(
            symbol,
            quantity,
            price,
        ),
{
    let there = portfolio.buy(symbol, quantity, price);
    let back = there.reverse_buy(symbol, quantity, price);
    assert(back.shares =~= portfolio.shares);
}

/// A sale followed by its reversal leaves share counts and cash as they
/// were, and the reversal stays within the machine types if the portfolio was
/// within them before the sale.
pub proof fn lemma_sell_then_reverse_sell(
    portfolio: PortfolioState,
    symbol: Seq<char>,
    quantity: int,
    price: int,
)
    requires
        portfolio.wf(),
    ensures
        portfolio.sell(symbol, quantity, price).reverse_sell(symbol, quantity, price) == portfolio,
        portfolio.fits() ==> portfolio.sell(symbol, quantity, price).can_buy(
            symbol,
            quantity,
            price,
        ),
{
    let there = portfolio.sell(symbol, quantity, price);
    let back = there.reverse_sell(symbol, quantity, price);
    assert(back.shares =~= portfolio.shares);
}

/// Taking a trade back undoes applying it, and applying it undoes taking it
/// back: the two are exact inverses.
pub proof fn lemma_apply_and_revert_cancel(portfolio: PortfolioState, trade: Trade)
    requires
        portfolio.wf(),
    ensures
        portfolio.apply(trade).revert(trade) == portfolio,
        portfolio.revert(trade).apply(trade) == portfolio,
{
    assert(portfolio.apply(trade).revert(trade).shares =~= portfolio.shares);
    assert(portfolio.revert(trade).apply(trade).shares =~= portfolio.shares);
}

/// A trade that was applied within the machine types can be taken back
/// within them, and one that was taken back can be applied again.
pub proof fn lemma_way_back_fits(portfolio: PortfolioState, trade: Trade)
    requires
        portfolio.wf(),
        portfolio.fits(),
    ensures
        portfolio.apply(trade).accepts_reversal(trade),
        portfolio.revert(trade).accepts(trade),
        portfolio.accepts(trade) ==> portfolio.apply(trade).wf() && portfolio.apply(trade).fits(),
        portfolio.accepts_reversal(trade) ==> portfolio.revert(trade).wf() && portfolio.revert(
            trade,
        ).fits(),
{
    let symbol = trade.symbol();
    assert(i32::MIN <= portfolio.shares[symbol] <= i32::MAX);
}

/// Executing a trade, undoing it and redoing it leaves ledger and portfolio
/// as they were right after the trade was executed. After the undo alone the
/// portfolio and the executed trades are as they were before the trade.
pub proof fn lemma_execute_undo_redo(ledger: LedgerState, portfolio: PortfolioState, trade: Trade)
    requires
        portfolio.wf(),
    ensures
        ({
            let executed = ledger.execute(trade);
            let held = portfolio.apply(trade);
            let undone = executed.undo();
            let restored = executed.portfolio_after_undo(held);
            &&& executed.can_undo()
            &&& restored == portfolio
            &&& undone.executed == ledger.executed
            &&& undone.can_redo()
            &&& undone.redo() == executed
            &&& undone.portfolio_after_redo(restored) == held
        }),
{
    lemma_apply_and_revert_cancel(portfolio, trade);
    let executed = ledger.execute(trade);
    let undone = executed.undo();
    assert(undone.executed =~= ledger.executed);
    assert(undone.undone =~= seq![trade]);
    assert(undone.redo().executed =~= executed.executed);
    assert(undone.redo().undone =~= executed.undone);
}

/// An undo followed by a redo, and a redo followed by an undo, leave ledger
/// and portfolio as they were.
pub proof fn lemma_undo_and_redo_cancel(ledger: LedgerState, portfolio: PortfolioState)
    requires
        portfolio.wf(),
    ensures
        ledger.can_undo() ==> ledger.undo().redo() == ledger && ledger.undo().portfolio_after_redo(
            ledger.portfolio_after_undo(portfolio),
        ) == portfolio,
        ledger.can_redo() ==> ledger.redo().undo() == ledger && ledger.redo().portfolio_after_undo(
            ledger.portfolio_after_redo(portfolio),
        ) == portfolio,
{
    if ledger.can_undo() {
        lemma_apply_and_revert_cancel(portfolio, ledger.executed.last());
        assert(ledger.undo().redo().executed =~= ledger.executed);
        assert(ledger.undo().redo().undone =~= ledger.undone);
    }
    if ledger.can_redo() {
        lemma_apply_and_revert_cancel(portfolio, ledger.undone.last());
        assert(ledger.redo().undo().executed =~= ledger.executed);
        assert(ledger.redo().undo().undone =~= ledger.undone);
    }
}

/// Executing a trade leaves nothing to redo, whatever was undone before: a
/// redo that follows reports failure and changes neither ledger nor
/// portfolio.
pub proof fn lemma_execute_invalidates_redo(
    ledger: LedgerState,
    portfolio: PortfolioState,
    trade: Trade,
)
    ensures
        ledger.execute(trade).undone == Seq::<Trade>::empty(),
        !ledger.execute(trade).can_redo(),
        ledger.execute(trade).redo() == ledger.execute(trade),
        ledger.execute(trade).portfolio_after_redo(portfolio) == portfolio,
{
}

/// A copy of the ledger taken before a trade is executed keeps the history
/// it was taken with, while the history of the ledger itself grows by the
/// trade.
pub proof fn lemma_snapshot_keeps_history(ledger: LedgerState, snapshot: LedgerState, trade: Trade)
    requires
        snapshot == ledger,
    ensures
        ledger.execute(trade).executed == snapshot.executed.push(trade),
        ledger.execute(trade).executed.len() == snapshot.executed.len() + 1,
        ledger.execute(trade).executed.drop_last() == snapshot.executed,
{
    assert(ledger.execute(trade).executed.drop_last() =~= snapshot.executed);
}

/// Applying trades keeps a share count for every symbol.
pub proof fn lemma_replay_wf(start: PortfolioState, trades: Seq<Trade>)
    requires
        start.wf(),
    ensures
        replay(start, trades).wf(),
    decreases trades.len(),
{
    if trades.len() > 0 {
        lemma_replay_wf(start, trades.drop_last());
    }
}

/// The ledger after a run of executions holds the trades behind those it
/// held before, with nothing to redo, and the portfolio is the replay of the
/// trades.
pub proof fn lemma_execute_all(ledger: LedgerState, portfolio: PortfolioState, trades: Seq<Trade>)
    ensures
        execute_all(ledger, portfolio, trades).0.executed == ledger.executed + trades,
        execute_all(ledger, portfolio, trades).0.undone == if trades.len() == 0 {
            ledger.undone
        } else {
            Seq::<Trade>::empty()
        },
        execute_all(ledger, portfolio, trades).1 == replay(portfolio, trades),
    decreases trades.len(),
{
    if trades.len() == 0 {
        assert(ledger.executed + trades =~= ledger.executed);
    } else {
        lemma_execute_all(ledger, portfolio, trades.drop_last());
        assert((ledger.executed + trades.drop_last()).push(trades.last()) =~= ledger.executed
            + trades);
    }
}

/// Undo is last in, first out. After trades are executed in order, as many
/// undos take them back newest first: the portfolio is again what it was
/// before the first of them, the executed trades are those from before, and
/// the trades wait for redo in the reverse of the order of execution. If
/// nothing had been executed before, a further undo reports failure and
/// changes nothing.
pub proof fn lemma_undo_is_lifo(ledger: LedgerState, portfolio: PortfolioState, trades: Seq<Trade>)
    requires
        portfolio.wf(),
    ensures
        ({
            let (recorded, held) = execute_all(ledger, portfolio, trades);
            let (unwound, restored) = undo_times(recorded, held, trades.len());
            &&& restored == portfolio
            &&& unwound.executed == ledger.executed
            &&& unwound.undone == recorded.undone + trades.reverse()
            &&& ledger.executed.len() == 0 ==> {
                &&& !unwound.can_undo()
                &&& unwound.undo() == unwound
                &&& unwound.portfolio_after_undo(restored) == restored
            }
        }),
{
    lemma_execute_all(ledger, portfolio, trades);
    let (recorded, held) = execute_all(ledger, portfolio, trades);
    lemma_undo_times_unwinds(ledger.executed, recorded.undone, trades, portfolio);
    assert(recorded == (LedgerState {
        executed: ledger.executed + trades,
        undone: recorded.undone,
    }));
}

/// A ledger whose newest executed trades are `trades`, on a portfolio that
/// is the replay of `trades` from `before`, is taken back by `trades.len()`
/// undos to `before`, newest trade first.
proof fn lemma_undo_times_unwinds(
    base: Seq<Trade>,
    undone: Seq<Trade>,
    trades: Seq<Trade>,
    before: PortfolioState,
)
    requires
        before.wf(),
    ensures
        undo_times(
            LedgerState { executed: base + trades, undone },
            replay(before, trades),
            trades.len(),
        ) == (LedgerState { executed: base, undone: undone + trades.reverse() }, before),
    decreases trades.len(),
{
    let ledger = LedgerState { executed: base + trades, undone };
    if trades.len() == 0 {
        assert(base + trades =~= base);
        assert(undone + trades.reverse() =~= undone);
    } else {
        let newest = trades.last();
        let earlier = trades.drop_last();
        lemma_replay_wf(before, earlier);
        lemma_apply_and_revert_cancel(replay(before, earlier), newest);
        assert((base + trades).last() == newest);
        assert((base + trades).drop_last() =~= base + earlier);
        assert(ledger.undo() == (LedgerState {
            executed: base + earlier,
            undone: undone.push(newest),
        }));
        assert(ledger.portfolio_after_undo(replay(before, trades)) == replay(before, earlier));
        lemma_undo_times_unwinds(base, undone.push(newest), earlier, before);
        assert(undone.push(newest) + earlier.reverse() =~= undone + trades.reverse());
    }
}

/// If the portfolio is the replay of the executed trades from some start, it
/// still is after an execution, after an undo and after a redo.
pub proof fn lemma_operations_keep_track(
    ledger: LedgerState,
    start: PortfolioState,
    portfolio: PortfolioState,
    trade: Trade,
)
    requires
        start.wf(),
        tracks(ledger, start, portfolio),
    ensures
        tracks(ledger.execute(trade), start, portfolio.apply(trade)),
        tracks(ledger.undo(), start, ledger.portfolio_after_undo(portfolio)),
        tracks(ledger.redo(), start, ledger.portfolio_after_redo(portfolio)),
{
    assert(ledger.execute(trade).executed.drop_last() =~= ledger.executed);
    if ledger.can_undo() {
        lemma_replay_wf(start, ledger.executed.drop_last());
        lemma_apply_and_revert_cancel(
            replay(start, ledger.executed.drop_last()),
            ledger.executed.last(),
        );
    }
    if ledger.can_redo() {
        assert(ledger.redo().executed.drop_last() =~= ledger.executed);
    }
}

} // verus!
