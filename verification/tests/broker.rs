use tradebot::broker::{find_rub, MoneyValue};
use tradebot::clock::order_time_label;
use tradebot::money::Quotation;
use tradebot::numfmt::{i64_to_dec, u64_to_dec};

#[test]
fn find_rub_takes_the_first_rouble_entry() {
    let vals = vec![
        MoneyValue { currency: String::from("usd"), units: 3, nano: 0 },
        MoneyValue { currency: String::from("rub"), units: 1000, nano: 50_0000000 },
        MoneyValue { currency: String::from("rub"), units: 7, nano: 0 },
    ];
    assert_eq!(find_rub(&vals), Some(Quotation { units: 1000, nano: 50_0000000 }));
}

#[test]
fn find_rub_reports_nothing_without_roubles() {
    let vals = vec![MoneyValue { currency: String::from("eur"), units: 3, nano: 0 }];
    assert_eq!(find_rub(&vals), None);
    assert_eq!(find_rub(&Vec::new()), None);
}

#[test]
fn order_time_renders_moscow_wall_clock() {
    // The epoch is midnight UTC: three in the morning in Moscow.
    assert_eq!(order_time_label(Some(0)), "03:00");
    // A quarter past ten UTC on 2023-02-01 is a quarter past one in Moscow.
    let nanos: i64 = 1_675_246_500_000_000_000;
    assert_eq!(order_time_label(Some(nanos)), "13:15");
    assert_eq!(order_time_label(None), "time undetermined");
}

#[test]
fn decimal_rendering_handles_signs_and_zero() {
    assert_eq!(u64_to_dec(0), "0");
    assert_eq!(u64_to_dec(9_876_543_210), "9876543210");
    assert_eq!(i64_to_dec(-12), "-12");
    assert_eq!(i64_to_dec(0), "0");
    assert_eq!(i64_to_dec(i64::MIN), "-9223372036854775808");
}
