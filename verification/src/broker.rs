//! Plain models of what the broker reports: account money by currency, the
//! order book, and candles. The transport hands these in as values; the
//! logic here reads them.

use vstd::prelude::*;

verus! {

use crate::money::Quotation;

/// An amount of one currency in the account.
#[derive(PartialEq, Debug)]
pub struct MoneyValue {
    pub currency: String,
    pub units: i64,
    pub nano: i32,
}

/// One price level of the order book.
#[derive(Clone, Copy, PartialEq, Eq, Structural, Debug)]
pub struct OrderLevel {
    pub price: Quotation,
    pub quantity: i64,
}

/// An order-book snapshot. A snapshot without a timestamp means the market
/// is closed.
#[derive(PartialEq, Debug)]
pub struct OrderBook {
    pub bids: Vec<OrderLevel>,
    pub asks: Vec<OrderLevel>,
    pub has_timestamp: bool,
}

/// One candle of market history.
#[derive(Clone, Copy, PartialEq, Eq, Structural, Debug)]
pub struct Candle {
    pub open: Quotation,
    pub close: Quotation,
    pub high: Quotation,
    pub low: Quotation,
    pub volume: i64,
}

/// The authentication material attached to every broker call: the bearer
/// token the transport layer sends with each request. The transport itself
/// lives outside the verified core.
#[derive(Clone, Debug)]
pub struct DefaultInterceptor {
    pub token: String,
}

/// The rouble balance among the account's currency amounts: the first entry
/// whose currency reads "rub", if any.
pub fn find_rub(vals: &Vec<MoneyValue>) -> (r: Option<Quotation>)
    ensures
        match r {
            Some(q) => exists|i: int|
                0 <= i < vals@.len() && (#[trigger] vals@[i]).currency@ == "rub"@ && q
                    == (Quotation { units: vals@[i].units, nano: vals@[i].nano }) && (forall|
                    j: int,
                |
                    0 <= j < i ==> (#[trigger] vals@[j]).currency@ != "rub"@),
            None => forall|i: int|
                0 <= i < vals@.len() ==> (#[trigger] vals@[i]).currency@ != "rub"@,
        },
{
    let rub = String::new().concat("rub");
    let mut k: usize = 0;
    while k < vals.len()
        invariant
            rub@ == "rub"@,
            k <= vals@.len(),
            forall|j: int| 0 <= j < k ==> (#[trigger] vals@[j]).currency@ != "rub"@,
        decreases vals@.len() - k,
    {
        if vals[k].currency == rub {
            return Some(Quotation { units: vals[k].units, nano: vals[k].nano });
        }
        k = k + 1;
    }
    None
}

} // verus!
