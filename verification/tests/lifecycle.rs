use tradebot::lifecycle::{
    next_order_id, open_position, record_exit, step_order_report, Action, OrderDirection,
    OrderReport, PosState, PositionStep, State,
};
use tradebot::money::Quotation;
use tradebot::scalp::Scalp;
use tradebot::stats::{trade_outcome, DayStat};
use tradebot::strategy::Strategy;

#[test]
fn round_trip_from_seeking_to_seeking() {
    // Seeking with a 1000.0 balance; the strategy decides to open at 5.90
    // for 8 lots on the sell side.
    let balance = Quotation { units: 1000, nano: 0 };
    let _seeking = State::Seeking(balance);
    let decision = Action::Open(Quotation { units: 5, nano: 90_0000000 }, 8, OrderDirection::Sell);
    let (price, lots, dir) = match decision {
        Action::Open(p, l, d) | Action::Close(p, l, d) => (p, l, d),
        Action::Hold => panic!("expected a trading decision"),
    };
    let pos = open_position(price, lots, dir, String::from("1001"));
    assert_eq!(pos.state, PosState::WaitOpen);
    assert_eq!(pos.lots, 8);
    assert_eq!(pos.close_id, "");

    // The broker reports the entry order filled at 5.90 for all 8 lots.
    let filled = OrderReport {
        status: 1,
        avg_price: Some(Quotation { units: 5, nano: 90_0000000 }),
        lots_executed: 8,
    };
    let (pos, fill_price, fill_lots) = match step_order_report(pos, &filled) {
        PositionStep::PlaceExit(p, price, lots) => (p, price, lots),
        _ => panic!("expected the exit order to be owed"),
    };
    assert_eq!(pos.state, PosState::Hold);

    // The matching exit order comes from the strategy's take-profit.
    let mut strategy = Scalp::new();
    let (exit_price, exit_lots, exit_dir) = strategy.get_take_profit(fill_price, fill_lots);
    assert_eq!(exit_price, Quotation { units: 5, nano: 91_0000000 });
    assert_eq!(exit_lots, 8);
    assert_eq!(exit_dir, OrderDirection::Sell);
    let pos = record_exit(pos, exit_price, String::from("1002"));
    assert_eq!(pos.state, PosState::WaitClose);
    assert_eq!(pos.price_out, Quotation { units: 5, nano: 91_0000000 });
    assert_eq!(pos.close_id, "1002");

    // The broker reports the exit order filled: the round trip is complete
    // and exactly one trade record lands in the day's ledger.
    let closed = OrderReport {
        status: 1,
        avg_price: Some(Quotation { units: 5, nano: 91_0000000 }),
        lots_executed: 8,
    };
    let pos = match step_order_report(pos, &closed) {
        PositionStep::Closed(p) => p,
        _ => panic!("expected the round trip to close"),
    };
    let (profit, turnover) = trade_outcome(
        pos.price_in,
        pos.price_out,
        pos.lots,
        pos.direction,
        Quotation { units: 0, nano: 0 },
        Quotation { units: 0, nano: 13_0000000 },
    );
    // Turnover is the whole units of 8 * (5.90 + 5.91) = 94.48.
    assert_eq!(turnover, 94);
    let mut day = DayStat::fresh(String::from("2023-02-01"));
    day.record_trade(tradebot::stats::TradeStat {
        time_in: String::from("10:00"),
        time_out: String::from("10:05"),
        price_in: (pos.price_in.units, pos.price_in.nano),
        price_out: (pos.price_out.units, pos.price_out.nano),
        direction: false,
        turnover,
        profit,
    });
    assert_eq!(day.trades_count, 1);
    assert_eq!(day.trades.len(), 1);
    assert_eq!(day.turnover, 94);
    let _seeking_again = State::Seeking(balance);
}

#[test]
fn partial_fill_keeps_position_without_exit_order() {
    let pos = open_position(
        Quotation { units: 5, nano: 90_0000000 },
        8,
        OrderDirection::Sell,
        String::from("1001"),
    );
    let partial = OrderReport {
        status: 5,
        avg_price: Some(Quotation { units: 5, nano: 85_0000000 }),
        lots_executed: 3,
    };
    let pos = match step_order_report(pos, &partial) {
        PositionStep::Keep(p) => p,
        _ => panic!("expected the position to be kept"),
    };
    assert_eq!(pos.state, PosState::PartialOpen);
    assert_eq!(pos.price_in, Quotation { units: 5, nano: 85_0000000 });
    assert_eq!(pos.lots, 3);
    // No exit order was placed.
    assert_eq!(pos.close_id, "");
}

#[test]
fn resting_order_is_polled_again() {
    let pos = open_position(
        Quotation { units: 5, nano: 90_0000000 },
        8,
        OrderDirection::Sell,
        String::from("1001"),
    );
    assert_eq!(pos.poll_target(), "1001");
    let resting = OrderReport { status: 4, avg_price: None, lots_executed: 0 };
    match step_order_report(pos, &resting) {
        PositionStep::Keep(p) => assert_eq!(p.state, PosState::WaitOpen),
        _ => panic!("expected the position to be kept"),
    }
}

#[test]
fn rejected_order_escalates_to_reconciliation() {
    let pos = open_position(
        Quotation { units: 5, nano: 90_0000000 },
        8,
        OrderDirection::Sell,
        String::from("1001"),
    );
    let rejected = OrderReport { status: 2, avg_price: None, lots_executed: 0 };
    assert!(matches!(step_order_report(pos, &rejected), PositionStep::Reconcile));
}

#[test]
fn order_ids_never_repeat() {
    let (c1, id1) = next_order_id(1000);
    let (c2, id2) = next_order_id(c1);
    assert_eq!(c1, 1001);
    assert_eq!(c2, 1002);
    assert_eq!(id1, "1001");
    assert_eq!(id2, "1002");
    assert!(c2 > c1);
    assert_ne!(id1, id2);
    // A restart re-reads the persisted counter and still never reuses an id.
    let (c3, id3) = next_order_id(c2);
    assert_eq!(c3, 1003);
    assert_ne!(id3, id2);
    assert_ne!(id3, id1);
}
