use tradebot::lifecycle::{open_position, OrderDirection, PosState, State};
use tradebot::money::Quotation;
use tradebot::reconcile::{
    drift_alert, drift_verdict, is_fatal, orders_check, portfolio_check, DriftVerdict,
    OrdersCheck,
};

#[test]
fn seeking_with_held_lots_is_fatal_portfolio_drift() {
    // The lifecycle believes nothing is held, the broker reports 5 lots and
    // no resting orders: the portfolio check alone fails and the verdict is
    // fatal, with exactly one alert to raise before terminating.
    let state = State::Seeking(Quotation { units: 1000, nano: 0 });
    let portfolio_ok = portfolio_check(&state, 5);
    assert!(!portfolio_ok);
    let orders = orders_check(&state, true);
    assert_eq!(orders, OrdersCheck::Pass);
    let verdict = drift_verdict(portfolio_ok, orders == OrdersCheck::Pass);
    assert_eq!(verdict, DriftVerdict::PortfolioWrong);
    assert_eq!(drift_alert(&verdict), "Unexpected portfolio state");
}

#[test]
fn portfolio_check_matches_position_lots() {
    let pos = open_position(
        Quotation { units: 5, nano: 90_0000000 },
        8,
        OrderDirection::Sell,
        String::from("1001"),
    );
    let state = State::InPosition(pos);
    assert!(portfolio_check(&state, 8));
    assert!(!portfolio_check(&state, 7));
    let seeking = State::Seeking(Quotation { units: 0, nano: 0 });
    assert!(portfolio_check(&seeking, 0));
}

#[test]
fn stray_orders_are_cancelled_out_of_position() {
    let seeking = State::Seeking(Quotation { units: 0, nano: 0 });
    assert_eq!(orders_check(&seeking, false), OrdersCheck::CancelAllAndFail);
    assert_eq!(orders_check(&seeking, true), OrdersCheck::Pass);
    let sleeping = State::Sleeping(0, 60);
    assert_eq!(orders_check(&sleeping, false), OrdersCheck::CancelAllAndFail);
}

#[test]
fn missing_orders_in_position_fail_the_check() {
    let pos = open_position(
        Quotation { units: 5, nano: 90_0000000 },
        8,
        OrderDirection::Sell,
        String::from("1001"),
    );
    let state = State::InPosition(pos);
    // An empty book while waiting for a fill is wrong.
    assert_eq!(orders_check(&state, true), OrdersCheck::CancelAllAndFail);
    // A resting order while waiting for a fill is expected.
    assert_eq!(orders_check(&state, false), OrdersCheck::Pass);
}

#[test]
fn hold_expects_exactly_an_empty_book() {
    let mut pos = open_position(
        Quotation { units: 5, nano: 90_0000000 },
        8,
        OrderDirection::Sell,
        String::from("1001"),
    );
    pos.state = PosState::Hold;
    let state = State::InPosition(pos);
    // No exit order has been placed yet, so an empty book is the expected
    // situation and the check passes.
    assert_eq!(orders_check(&state, true), OrdersCheck::Pass);
    // A resting order in that moment is a stray: cancel it and fail.
    assert_eq!(orders_check(&state, false), OrdersCheck::CancelAllAndFail);
}

#[test]
fn failing_verdicts_are_fatal_with_their_own_alerts() {
    assert_eq!(drift_alert(&drift_verdict(false, false)), "Unexpected orders and portfolio state");
    assert_eq!(drift_alert(&drift_verdict(true, false)), "Unexpected orders");
    assert_eq!(drift_alert(&drift_verdict(false, true)), "Unexpected portfolio state");
    assert!(is_fatal(&drift_verdict(false, false)));
    assert!(is_fatal(&drift_verdict(true, false)));
    assert!(is_fatal(&drift_verdict(false, true)));
    // Both checks passing means no drift: not fatal, no alert owed.
    assert!(!is_fatal(&drift_verdict(true, true)));
}
