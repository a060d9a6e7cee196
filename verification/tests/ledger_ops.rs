use trade_ledger::action::TradeAction;
use trade_ledger::ledger::TradeLedger;
use trade_ledger::portfolio::Portfolio;

fn buy(symbol: &str, quantity: i32, price: i64) -> TradeAction {
    TradeAction::Buy { symbol: symbol.to_string(), quantity, price }
}

fn sell(symbol: &str, quantity: i32, price: i64) -> TradeAction {
    TradeAction::Sell { symbol: symbol.to_string(), quantity, price }
}

#[test]
fn new_ledger_is_empty() {
    let ledger = TradeLedger::new();
    assert!(ledger.executed().is_empty());
    assert!(ledger.undone().is_empty());
}

#[test]
fn execute_applies_and_records() {
    let mut portfolio = Portfolio::new(100_000_000);
    let mut ledger = TradeLedger::new();
    ledger.execute(buy("AAPL", 100, 18_550), &mut portfolio);
    ledger.execute(sell("MSFT", 75, 42_000), &mut portfolio);
    assert_eq!(ledger.executed(), &vec![buy("AAPL", 100, 18_550), sell("MSFT", 75, 42_000)]);
    assert!(ledger.undone().is_empty());
    assert_eq!(portfolio.position("AAPL"), 100);
    assert_eq!(portfolio.position("MSFT"), -75);
    assert_eq!(portfolio.cash(), 100_000_000 - 1_855_000 + 3_150_000);
}

#[test]
fn undo_on_empty_ledger_reports_failure_and_changes_nothing() {
    let mut portfolio = Portfolio::new(12_345);
    portfolio.buy("AAPL", 1, 5);
    let mut ledger = TradeLedger::new();
    assert!(!ledger.undo(&mut portfolio));
    assert!(ledger.executed().is_empty());
    assert!(ledger.undone().is_empty());
    assert_eq!(portfolio.cash(), 12_340);
    assert_eq!(portfolio.position("AAPL"), 1);
}

#[test]
fn redo_on_empty_ledger_reports_failure_and_changes_nothing() {
    let mut portfolio = Portfolio::new(12_345);
    let mut ledger = TradeLedger::new();
    assert!(!ledger.redo(&mut portfolio));
    ledger.execute(buy("AAPL", 1, 5), &mut portfolio);
    assert!(!ledger.redo(&mut portfolio));
    assert_eq!(ledger.executed(), &vec![buy("AAPL", 1, 5)]);
    assert!(ledger.undone().is_empty());
    assert_eq!(portfolio.cash(), 12_340);
    assert_eq!(portfolio.position("AAPL"), 1);
}

#[test]
fn concrete_scenario() {
    let mut portfolio = Portfolio::new(100_000_000);
    let mut ledger = TradeLedger::new();

    ledger.execute(buy("AAPL", 100, 18_550), &mut portfolio);
    assert_eq!(portfolio.cash(), 98_145_000);
    assert_eq!(portfolio.position("AAPL"), 100);

    ledger.execute(buy("GOOGL", 50, 14_025), &mut portfolio);
    assert_eq!(portfolio.cash(), 97_443_750);
    assert_eq!(portfolio.position("GOOGL"), 50);

    assert!(ledger.undo(&mut portfolio));
    assert_eq!(portfolio.cash(), 98_145_000);
    assert_eq!(portfolio.position("GOOGL"), 0);
    assert_eq!(portfolio.position("AAPL"), 100);

    assert!(ledger.redo(&mut portfolio));
    assert_eq!(portfolio.cash(), 97_443_750);
    assert_eq!(portfolio.position("GOOGL"), 50);
}

#[test]
fn concrete_scenario_in_currency_units() {
    let cents = |amount: f64| (amount * 100.0).round() as i64;
    let mut portfolio = Portfolio::new(cents(1_000_000.00));
    let mut ledger = TradeLedger::new();

    ledger.execute(buy("AAPL", 100, cents(185.50)), &mut portfolio);
    assert_eq!(portfolio.cash(), cents(981_450.00));
    ledger.execute(buy("GOOGL", 50, cents(140.25)), &mut portfolio);
    assert_eq!(portfolio.cash(), cents(974_437.50));
    assert!(ledger.undo(&mut portfolio));
    assert_eq!(portfolio.cash(), cents(981_450.00));
    assert!(ledger.redo(&mut portfolio));
    assert_eq!(portfolio.cash(), cents(974_437.50));
    assert_eq!(portfolio.cash() as f64 / 100.0, 974_437.50);
}

#[test]
fn undo_is_last_in_first_out() {
    let mut portfolio = Portfolio::new(100_000_000);
    let mut ledger = TradeLedger::new();
    let a = buy("AAPL", 100, 18_550);
    let b = buy("GOOGL", 50, 14_025);
    let c = sell("MSFT", 75, 42_000);
    ledger.execute(a.clone(), &mut portfolio);
    let cash_after_a = portfolio.cash();
    ledger.execute(b.clone(), &mut portfolio);
    let cash_after_b = portfolio.cash();
    ledger.execute(c.clone(), &mut portfolio);

    assert!(ledger.undo(&mut portfolio));
    assert_eq!(portfolio.position("MSFT"), 0);
    assert_eq!(portfolio.position("GOOGL"), 50);
    assert_eq!(portfolio.position("AAPL"), 100);
    assert_eq!(portfolio.cash(), cash_after_b);
    assert_eq!(ledger.executed(), &vec![a.clone(), b.clone()]);
    assert_eq!(ledger.undone(), &vec![c.clone()]);

    assert!(ledger.undo(&mut portfolio));
    assert_eq!(portfolio.position("GOOGL"), 0);
    assert_eq!(portfolio.position("AAPL"), 100);
    assert_eq!(portfolio.cash(), cash_after_a);
    assert_eq!(ledger.executed(), &vec![a.clone()]);
    assert_eq!(ledger.undone(), &vec![c.clone(), b.clone()]);

    assert!(ledger.undo(&mut portfolio));
    assert_eq!(portfolio.position("AAPL"), 0);
    assert_eq!(portfolio.cash(), 100_000_000);
    assert!(ledger.executed().is_empty());
    assert_eq!(ledger.undone(), &vec![c, b, a]);

    assert!(!ledger.undo(&mut portfolio));
    assert_eq!(portfolio.cash(), 100_000_000);
    assert_eq!(portfolio.position("AAPL"), 0);
    assert_eq!(portfolio.position("GOOGL"), 0);
    assert_eq!(portfolio.position("MSFT"), 0);
    assert!(portfolio.holdings().is_empty());
}

#[test]
fn redo_replays_in_the_order_of_execution() {
    let mut portfolio = Portfolio::new(0);
    let mut ledger = TradeLedger::new();
    let a = buy("AAPL", 1, 10);
    let b = sell("AAPL", 4, 20);
    ledger.execute(a.clone(), &mut portfolio);
    ledger.execute(b.clone(), &mut portfolio);
    assert!(ledger.undo(&mut portfolio));
    assert!(ledger.undo(&mut portfolio));
    assert!(ledger.redo(&mut portfolio));
    assert_eq!(ledger.executed(), &vec![a.clone()]);
    assert_eq!(ledger.undone(), &vec![b.clone()]);
    assert_eq!(portfolio.position("AAPL"), 1);
    assert_eq!(portfolio.cash(), -10);
    assert!(ledger.redo(&mut portfolio));
    assert_eq!(ledger.executed(), &vec![a, b]);
    assert!(ledger.undone().is_empty());
    assert_eq!(portfolio.position("AAPL"), -3);
    assert_eq!(portfolio.cash(), 70);
    assert!(!ledger.redo(&mut portfolio));
}

#[test]
fn undo_then_redo_round_trip() {
    let mut portfolio = Portfolio::new(100_000_000);
    let mut ledger = TradeLedger::new();
    ledger.execute(sell("NVDA", 30, 89_050), &mut portfolio);
    let a = buy("TSLA", 200, 17_500);
    ledger.execute(a.clone(), &mut portfolio);
    let cash = portfolio.cash();
    let tsla = portfolio.position("TSLA");
    let nvda = portfolio.position("NVDA");
    let executed = ledger.executed().clone();

    assert!(ledger.undo(&mut portfolio));
    assert_ne!(portfolio.cash(), cash);
    assert!(ledger.redo(&mut portfolio));

    assert_eq!(portfolio.cash(), cash);
    assert_eq!(portfolio.position("TSLA"), tsla);
    assert_eq!(portfolio.position("NVDA"), nvda);
    assert_eq!(ledger.executed(), &executed);
    assert!(ledger.undone().is_empty());
}

#[test]
fn execute_invalidates_redo() {
    let mut portfolio = Portfolio::new(100_000_000);
    let mut ledger = TradeLedger::new();
    ledger.execute(buy("AAPL", 100, 18_550), &mut portfolio);
    ledger.execute(buy("GOOGL", 50, 14_025), &mut portfolio);
    assert!(ledger.undo(&mut portfolio));
    assert!(ledger.undo(&mut portfolio));
    assert_eq!(ledger.undone().len(), 2);

    ledger.execute(sell("MSFT", 75, 42_000), &mut portfolio);
    assert!(ledger.undone().is_empty());
    assert_eq!(ledger.executed(), &vec![sell("MSFT", 75, 42_000)]);
    let cash = portfolio.cash();

    assert!(!ledger.redo(&mut portfolio));
    assert_eq!(portfolio.cash(), cash);
    assert_eq!(portfolio.position("AAPL"), 0);
    assert_eq!(portfolio.position("GOOGL"), 0);
    assert_eq!(portfolio.position("MSFT"), -75);
    assert_eq!(ledger.executed(), &vec![sell("MSFT", 75, 42_000)]);
}

#[test]
fn snapshot_keeps_its_history_when_the_ledger_goes_on() {
    let mut portfolio = Portfolio::new(100_000_000);
    let mut ledger = TradeLedger::new();
    let a = buy("AAPL", 100, 18_550);
    let b = buy("GOOGL", 50, 14_025);
    let c = sell("AAPL", 50, 19_000);
    ledger.execute(a.clone(), &mut portfolio);
    ledger.execute(b.clone(), &mut portfolio);

    let snapshot = ledger.snapshot();
    ledger.execute(c.clone(), &mut portfolio);

    assert_eq!(snapshot.executed(), &vec![a.clone(), b.clone()]);
    assert_eq!(ledger.executed(), &vec![a, b, c]);
}

#[test]
fn ledger_keeps_its_history_when_the_snapshot_goes_on() {
    let mut portfolio = Portfolio::new(100_000_000);
    let mut ledger = TradeLedger::new();
    let a = buy("AAPL", 100, 18_550);
    let b = buy("GOOGL", 50, 14_025);
    ledger.execute(a.clone(), &mut portfolio);
    ledger.execute(b.clone(), &mut portfolio);
    assert!(ledger.undo(&mut portfolio));

    let mut snapshot = ledger.snapshot();
    assert_eq!(snapshot.executed(), &vec![a.clone()]);
    assert_eq!(snapshot.undone(), &vec![b.clone()]);

    let mut other = Portfolio::new(0);
    assert!(snapshot.undo(&mut other));
    assert!(snapshot.executed().is_empty());
    assert_eq!(snapshot.undone(), &vec![b.clone(), a.clone()]);
    assert_eq!(other.position("AAPL"), -100);
    assert_eq!(other.cash(), 1_855_000);

    assert_eq!(ledger.executed(), &vec![a]);
    assert_eq!(ledger.undone(), &vec![b]);
    assert_eq!(portfolio.position("AAPL"), 100);
}

#[test]
fn clone_copies_both_sequences() {
    let mut portfolio = Portfolio::new(0);
    let mut ledger = TradeLedger::new();
    ledger.execute(buy("A", 1, 1), &mut portfolio);
    ledger.execute(buy("B", 2, 2), &mut portfolio);
    ledger.execute(buy("C", 3, 3), &mut portfolio);
    assert!(ledger.undo(&mut portfolio));
    let copy = ledger.clone();
    assert_eq!(copy.executed(), ledger.executed());
    assert_eq!(copy.undone(), ledger.undone());
    assert_eq!(copy.executed().len(), 2);
    assert_eq!(copy.undone(), &vec![buy("C", 3, 3)]);
}

#[test]
fn ledger_works_on_the_portfolio_it_is_handed() {
    let mut first = Portfolio::new(1_000);
    let mut second = Portfolio::new(2_000);
    let mut ledger = TradeLedger::new();
    ledger.execute(buy("AAPL", 10, 10), &mut first);
    assert!(ledger.undo(&mut second));
    assert_eq!(first.cash(), 900);
    assert_eq!(first.position("AAPL"), 10);
    assert_eq!(second.cash(), 2_100);
    assert_eq!(second.position("AAPL"), -10);
}

#[test]
fn undo_fits_and_redo_fits_tell_whether_the_step_stays_in_range() {
    let mut portfolio = Portfolio::new(0);
    let mut ledger = TradeLedger::new();
    assert!(ledger.undo_fits(&portfolio));
    assert!(ledger.redo_fits(&portfolio));
    ledger.execute(buy("AAPL", 1, 0), &mut portfolio);
    assert!(ledger.undo_fits(&portfolio));

    let mut short = Portfolio::new(0);
    short.buy("AAPL", i32::MIN, 0);
    assert!(!ledger.undo_fits(&short));

    assert!(ledger.undo(&mut portfolio));
    assert!(ledger.redo_fits(&portfolio));
    let mut full = Portfolio::new(0);
    full.buy("AAPL", i32::MAX, 0);
    assert!(!ledger.redo_fits(&full));
    assert!(ledger.undo_fits(&full));
}

#[test]
fn many_trades_unwind_to_the_start() {
    let mut portfolio = Portfolio::new(5_000_000);
    let mut ledger = TradeLedger::new();
    let symbols = ["AAPL", "GOOGL", "MSFT", "TSLA", "NVDA"];
    let mut count = 0;
    for round in 0..40i32 {
        let symbol = symbols[(round % 5) as usize];
        let action = if round % 3 == 0 {
            sell(symbol, round + 1, 1_000 + round as i64)
        } else {
            buy(symbol, 2 * round + 1, 2_000 - round as i64)
        };
        assert!(portfolio.accepts(&action));
        ledger.execute(action, &mut portfolio);
        count += 1;
    }
    assert_eq!(ledger.executed().len(), count);
    let mut undone = 0;
    while ledger.undo(&mut portfolio) {
        undone += 1;
    }
    assert_eq!(undone, count);
    assert_eq!(portfolio.cash(), 5_000_000);
    for symbol in symbols {
        assert_eq!(portfolio.position(symbol), 0);
    }
    assert!(portfolio.holdings().is_empty());
    assert_eq!(ledger.undone().len(), count);
}
