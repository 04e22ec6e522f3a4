use tradebot::broker::{OrderBook, OrderLevel};
use tradebot::lifecycle::{Action, OrderDirection, State};
use tradebot::money::Quotation;
use tradebot::scalp::Scalp;
use tradebot::strategy::{AnalysisType, Strategy};

#[test]
fn correct_quantity() {
    assert_eq!(
        Scalp::compute_lots_quantity(
            &Quotation { units: 50, nano: 00_0000000 },
            &Quotation { units: 5, nano: 90_0000000 }
        ),
        8
    );
}

#[test]
fn correct_price() {
    assert_eq!(
        Scalp::compute_price(&Quotation { units: 5, nano: 90_0000000 }, 1),
        Quotation { units: 5, nano: 91_0000000 }
    );
    assert_eq!(
        Scalp::compute_price(&Quotation { units: 5, nano: 90_0000000 }, -1),
        Quotation { units: 5, nano: 89_0000000 }
    );
    assert_eq!(
        Scalp::compute_price(&Quotation { units: 5, nano: 99_0000000 }, 1),
        Quotation { units: 6, nano: 00_0000000 }
    );
    assert_eq!(
        Scalp::compute_price(&Quotation { units: 5, nano: 00_0000000 }, -1),
        Quotation { units: 4, nano: 99_0000000 }
    );
}

#[test]
fn settings_match_configuration() {
    let s = Scalp::new().get_settings();
    assert_eq!(s.ticker, "TRUR");
    assert_eq!(s.figi, "BBG000000001");
    assert_eq!(s.trading_time, vec![(10, 0, 18, 40)]);
    assert_eq!(s.data_type, AnalysisType::OrderBook(10));
    assert_eq!(s.tax_rate, Quotation { units: 0, nano: 13_0000000 });
}

#[test]
fn take_profit_is_one_step_up_sell() {
    let mut s = Scalp::new();
    let (price, lots, dir) = s.get_take_profit(Quotation { units: 5, nano: 90_0000000 }, 8);
    assert_eq!(price, Quotation { units: 5, nano: 91_0000000 });
    assert_eq!(lots, 8);
    assert_eq!(dir, OrderDirection::Sell);
}

fn book(ask_q: i64, bid_q: i64) -> OrderBook {
    OrderBook {
        bids: vec![OrderLevel { price: Quotation { units: 5, nano: 89_0000000 }, quantity: bid_q }],
        asks: vec![OrderLevel { price: Quotation { units: 5, nano: 90_0000000 }, quantity: ask_q }],
        has_timestamp: true,
    }
}

#[test]
fn analyze_opens_short_when_ask_side_collapses() {
    let mut s = Scalp::new();
    let seeking = State::Seeking(Quotation { units: 50, nano: 0 });
    // Build up a large ask-side rolling average on balanced books.
    assert_eq!(s.analyze_ob(&book(1000, 1000), &seeking), Action::Hold);
    // The ask quantity collapses: the rolling average signals the ask side,
    // and the ratio 100/1000 is below the opening threshold.
    let action = s.analyze_ob(&book(100, 1000), &seeking);
    match action {
        Action::Open(price, lots, dir) => {
            assert_eq!(price, Quotation { units: 5, nano: 90_0000000 });
            // The lot divider takes the price first and the balance second,
            // so a price far below the balance yields zero lots.
            assert_eq!(lots, 0);
            assert_eq!(dir, OrderDirection::Sell);
        }
        other => panic!("expected an opening action, got {:?}", other),
    }
}

#[test]
fn analyze_holds_on_balanced_book() {
    let mut s = Scalp::new();
    let seeking = State::Seeking(Quotation { units: 50, nano: 0 });
    assert_eq!(s.analyze_ob(&book(500, 500), &seeking), Action::Hold);
    assert_eq!(s.analyze_ob(&book(500, 500), &seeking), Action::Hold);
}
