use tradebot::lifecycle::OrderDirection;
use tradebot::money::Quotation;
use tradebot::stats::{trade_outcome, DayStat, ProfitStat, Statistics, TradeStat};

#[test]
fn losing_sell_round_trip_numbers() {
    // Sold at 5.90, bought back at 5.91: a loss of 0.01 per lot over 8 lots.
    let (profit, turnover) = trade_outcome(
        Quotation { units: 5, nano: 90_0000000 },
        Quotation { units: 5, nano: 91_0000000 },
        8,
        OrderDirection::Sell,
        Quotation { units: 0, nano: 0 },
        Quotation { units: 0, nano: 13_0000000 },
    );
    assert_eq!(profit.net, Quotation { units: -1, nano: 92_0000000 });
    assert_eq!(profit.after_fees, Quotation { units: 0, nano: 0 });
    assert_eq!(profit.after_tax, Quotation { units: 0, nano: 0 });
    assert_eq!(turnover, 94);
}

#[test]
fn winning_buy_round_trip_numbers() {
    // Bought at 5.90, sold at 5.95: a gain of 0.05 per lot over 10 lots.
    let (profit, turnover) = trade_outcome(
        Quotation { units: 5, nano: 90_0000000 },
        Quotation { units: 5, nano: 95_0000000 },
        10,
        OrderDirection::Buy,
        Quotation { units: 1, nano: 0 },
        Quotation { units: 0, nano: 87_0000000 },
    );
    // 10 * 0.05 = 0.50 gross; a fee rate of 1 keeps it; 0.87 tax keeps 0.435.
    assert_eq!(profit.net, Quotation { units: 0, nano: 50_0000000 });
    assert_eq!(profit.after_fees, Quotation { units: 0, nano: 50_0000000 });
    assert_eq!(profit.after_tax, Quotation { units: 0, nano: 43_5000000 });
    // 10 * (5.90 + 5.95) = 118.50.
    assert_eq!(turnover, 118);
}

fn one_trade() -> TradeStat {
    TradeStat {
        time_in: String::from("10:00"),
        time_out: String::from("10:05"),
        price_in: (5, 90_0000000),
        price_out: (5, 91_0000000),
        direction: false,
        turnover: 94,
        profit: ProfitStat {
            net: Quotation { units: 0, nano: 8_0000000 },
            after_fees: Quotation { units: 0, nano: 8_0000000 },
            after_tax: Quotation { units: 0, nano: 6_9600000 },
        },
    }
}

#[test]
fn recording_a_trade_updates_the_day() {
    let mut day = DayStat::fresh(String::from("2023-02-01"));
    assert_eq!(day.trades_count, 0);
    assert_eq!(day.turnover, 0);
    day.record_trade(one_trade());
    day.record_trade(one_trade());
    assert_eq!(day.trades_count, 2);
    assert_eq!(day.turnover, 188);
    assert_eq!(day.trades.len(), 2);
    assert_eq!(day.profit.net, Quotation { units: 0, nano: 16_0000000 });
    assert_eq!(day.profit.after_tax, Quotation { units: 0, nano: 13_9200000 });
}

#[test]
fn recording_a_trade_updates_the_cumulative_ledger() {
    let mut total = Statistics::fresh(String::from("2023-02-01"));
    total.record_trade(one_trade());
    assert_eq!(total.trades_count, 1);
    assert_eq!(total.turnover, 94);
    assert_eq!(total.trade_secs, 0);
    assert_eq!(total.bot_start_date, "2023-02-01");
    assert_eq!(total.profit.net, Quotation { units: 0, nano: 8_0000000 });
}

#[test]
fn fresh_ledgers_start_zeroed() {
    let day = DayStat::fresh(String::from("2023-02-01"));
    assert_eq!(day.date, "2023-02-01");
    assert_eq!(day.profit.net, Quotation { units: 0, nano: 0 });
    let total = Statistics::fresh(String::from("2023-02-01"));
    assert_eq!(total.bot_start_date, "2023-02-01");
    assert_eq!(total.trades_count, 0);
    assert_eq!(total.trade_secs, 0);
}

#[test]
fn profit_display_shows_zero_or_three_tiers() {
    let zero = ProfitStat {
        net: Quotation { units: 0, nano: 0 },
        after_fees: Quotation { units: 0, nano: 0 },
        after_tax: Quotation { units: 0, nano: 0 },
    };
    assert_eq!(zero.display(), "0");
    let some = ProfitStat {
        net: Quotation { units: 1, nano: 50_0000000 },
        after_fees: Quotation { units: 1, nano: 20_0000000 },
        after_tax: Quotation { units: 1, nano: 0 },
    };
    assert_eq!(some.display(), "1.5 -> 1.2 -> 1.0");
}

#[test]
fn day_display_names_date_trades_and_profit() {
    let mut day = DayStat::fresh(String::from("2023-02-01"));
    day.record_trade(one_trade());
    assert_eq!(
        day.display(),
        "Сегодня: 2023-02-01\nСделок: 1, Прибыль: 0.08 -> 0.08 -> 0.0696"
    );
}
