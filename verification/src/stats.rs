//! The trade ledger: per-trade records, the day's running totals, and the
//! cumulative statistics, with the three-tier profit computation applied at
//! the moment a round trip closes.

use vstd::prelude::*;

verus! {

use crate::lifecycle::OrderDirection;
use crate::money::Quotation;
use crate::money::iabs;
use crate::money::lemma_mul_exact_int_left;
use crate::money::lemma_mul_exact_int_right;
use crate::money::lemma_mul_units_bound;
use crate::numfmt::dec_digits;

/// Profit of a trade or a period in three tiers: raw, after fees, after tax.
#[derive(Clone, Copy, PartialEq, Debug)]
pub struct ProfitStat {
    pub net: Quotation,
    pub after_fees: Quotation,
    pub after_tax: Quotation,
}

/// One closed round trip in the ledger.
#[derive(PartialEq, Debug)]
pub struct TradeStat {
    pub time_in: String,
    pub time_out: String,
    pub price_in: (i64, i32),
    pub price_out: (i64, i32),
    pub direction: bool,
    pub turnover: u32,
    pub profit: ProfitStat,
}

/// The running totals for one trading day.
#[derive(PartialEq, Debug)]
pub struct DayStat {
    pub date: String,
    pub turnover: u32,
    pub profit: ProfitStat,
    pub trades: Vec<TradeStat>,
    pub trades_count: u16,
}

/// The cumulative totals since the bot first started.
#[derive(PartialEq, Debug)]
pub struct Statistics {
    pub bot_start_date: String,
    pub trade_secs: u32,
    pub turnover: u32,
    pub profit: ProfitStat,
    pub trades: Vec<TradeStat>,
    pub trades_count: u16,
}

/// The all-zero profit.
pub open spec fn zero_profit() -> ProfitStat {
    ProfitStat {
        net: Quotation { units: 0, nano: 0 },
        after_fees: Quotation { units: 0, nano: 0 },
        after_tax: Quotation { units: 0, nano: 0 },
    }
}

impl ProfitStat {
    /// A zeroed profit entry.
    pub fn zero() -> (r: ProfitStat)
        ensures
            r == zero_profit(),
    {
        ProfitStat {
            net: Quotation { units: 0, nano: 0 },
            after_fees: Quotation { units: 0, nano: 0 },
            after_tax: Quotation { units: 0, nano: 0 },
        }
    }
}

impl DayStat {
    /// A zeroed ledger for the given day, as written at first startup.
    pub fn fresh(date: String) -> (r: DayStat)
        ensures
            r.date@ == date@,
            r.turnover == 0,
            r.profit == zero_profit(),
            r.trades@.len() == 0,
            r.trades_count == 0,
    {
        DayStat {
            date,
            turnover: 0,
            profit: ProfitStat::zero(),
            trades: Vec::new(),
            trades_count: 0,
        }
    }

    /// Appends one closed round trip and folds its profit and turnover into
    /// the day's totals. Money additions are exact.
    pub fn record_trade(&mut self, trade: TradeStat)
        requires
            old(self).trades_count < 65535,
            old(self).turnover + trade.turnover <= u32::MAX,
            old(self).profit.net.nano_in_range(),
            old(self).profit.after_fees.nano_in_range(),
            old(self).profit.after_tax.nano_in_range(),
            trade.profit.net.nano_in_range(),
            trade.profit.after_fees.nano_in_range(),
            trade.profit.after_tax.nano_in_range(),
            i64::MIN < old(self).profit.net.units + trade.profit.net.units < i64::MAX,
            i64::MIN < old(self).profit.after_fees.units + trade.profit.after_fees.units
                < i64::MAX,
            i64::MIN < old(self).profit.after_tax.units + trade.profit.after_tax.units
                < i64::MAX,
        ensures
            final(self).date@ == old(self).date@,
            final(self).trades_count == old(self).trades_count + 1,
            final(self).turnover == old(self).turnover + trade.turnover,
            final(self).trades@ == old(self).trades@.push(trade),
            final(self).profit.net == old(self).profit.net.spec_add(trade.profit.net),
            final(self).profit.after_fees == old(self).profit.after_fees.spec_add(
                trade.profit.after_fees,
            ),
            final(self).profit.after_tax == old(self).profit.after_tax.spec_add(
                trade.profit.after_tax,
            ),
    {
        self.trades_count = self.trades_count + 1;
        self.turnover = self.turnover + trade.turnover;
        self.profit = ProfitStat {
            net: self.profit.net.add(trade.profit.net),
            after_fees: self.profit.after_fees.add(trade.profit.after_fees),
            after_tax: self.profit.after_tax.add(trade.profit.after_tax),
        };
        self.trades.push(trade);
    }
}

impl Statistics {
    /// A zeroed cumulative ledger starting on the given day, as written at
    /// first startup.
    pub fn fresh(bot_start_date: String) -> (r: Statistics)
        ensures
            r.bot_start_date@ == bot_start_date@,
            r.trade_secs == 0,
            r.turnover == 0,
            r.profit == zero_profit(),
            r.trades@.len() == 0,
            r.trades_count == 0,
    {
        Statistics {
            bot_start_date,
            trade_secs: 0,
            turnover: 0,
            profit: ProfitStat::zero(),
            trades: Vec::new(),
            trades_count: 0,
        }
    }

    /// Folds one closed round trip into the cumulative ledger: the counts
    /// and money totals grow, the start date and traded seconds stay.
    pub fn record_trade(&mut self, trade: TradeStat)
        requires
            old(self).trades_count < 65535,
            old(self).turnover + trade.turnover <= u32::MAX,
            old(self).profit.net.nano_in_range(),
            old(self).profit.after_fees.nano_in_range(),
            old(self).profit.after_tax.nano_in_range(),
            trade.profit.net.nano_in_range(),
            trade.profit.after_fees.nano_in_range(),
            trade.profit.after_tax.nano_in_range(),
            i64::MIN < old(self).profit.net.units + trade.profit.net.units < i64::MAX,
            i64::MIN < old(self).profit.after_fees.units + trade.profit.after_fees.units
                < i64::MAX,
            i64::MIN < old(self).profit.after_tax.units + trade.profit.after_tax.units
                < i64::MAX,
        ensures
            final(self).bot_start_date@ == old(self).bot_start_date@,
            final(self).trade_secs == old(self).trade_secs,
            final(self).trades_count == old(self).trades_count + 1,
            final(self).turnover == old(self).turnover + trade.turnover,
            final(self).trades@ == old(self).trades@.push(trade),
            final(self).profit.net == old(self).profit.net.spec_add(trade.profit.net),
            final(self).profit.after_fees == old(self).profit.after_fees.spec_add(
                trade.profit.after_fees,
            ),
            final(self).profit.after_tax == old(self).profit.after_tax.spec_add(
                trade.profit.after_tax,
            ),
    {
        self.trades_count = self.trades_count + 1;
        self.turnover = self.turnover + trade.turnover;
        self.profit = ProfitStat {
            net: self.profit.net.add(trade.profit.net),
            after_fees: self.profit.after_fees.add(trade.profit.after_fees),
            after_tax: self.profit.after_tax.add(trade.profit.after_tax),
        };
        self.trades.push(trade);
    }
}

/// The per-lot gain of a round trip, signed by the side: for a buy, exit
/// price minus entry price; for a sell, entry minus exit.
pub open spec fn spec_price_gain(
    p_in: Quotation,
    p_out: Quotation,
    direction: OrderDirection,
) -> Quotation {
    if direction == OrderDirection::Buy {
        p_out.spec_sub(p_in)
    } else {
        p_in.spec_sub(p_out)
    }
}

/// The ledger numbers of one closed round trip: the three-tier profit and
/// the turnover in whole units. The gain is scaled by the lot count exactly;
/// fee and tax rates then multiply it; turnover is the lot count times the
/// sum of both prices, its whole units taken as the 32-bit tally the ledger
/// keeps.
pub fn trade_outcome(
    p_in: Quotation,
    p_out: Quotation,
    lots: i64,
    direction: OrderDirection,
    fee_rate: Quotation,
    tax_rate: Quotation,
) -> (r: (ProfitStat, u32))
    requires
        p_in.is_normal(),
        p_out.is_normal(),
        0 <= p_in.units <= 20_000,
        0 <= p_out.units <= 20_000,
        0 < lots <= 100_000,
        fee_rate.is_normal(),
        0 <= fee_rate.units <= 1,
        tax_rate.is_normal(),
        0 <= tax_rate.units <= 1,
    ensures
        ({
            let gain = spec_price_gain(p_in, p_out, direction);
            let lots_q = (Quotation { units: lots, nano: 0 });
            let net = lots_q.spec_mul(gain);
            let t = p_in.spec_add(p_out).spec_mul(lots_q);
            &&& r.0.net == net
            &&& r.0.after_fees == net.spec_mul(fee_rate)
            &&& r.0.after_tax == r.0.after_fees.spec_mul(tax_rate)
            &&& net.as_nanos() == lots * gain.as_nanos()
            &&& t.as_nanos() == lots * p_in.spec_add(p_out).as_nanos()
            &&& r.1 == #[verifier::truncate] (t.units as u32)
        }),
{
    let gain = if matches!(direction, OrderDirection::Buy) {
        p_out.sub(p_in)
    } else {
        p_in.sub(p_out)
    };
    let lots_q = Quotation { units: lots, nano: 0 };
    proof {
        assert(iabs(lots_q.units * gain.units) <= 100_000 * 20_001) by (nonlinear_arith)
            requires
                0 < lots_q.units <= 100_000,
                -20_001 <= gain.units <= 20_000,
        ;
        lemma_mul_exact_int_left(lots_q, gain);
        lemma_mul_units_bound(lots_q, gain);
    }
    let net = lots_q.mul(gain);
    proof {
        assert(iabs(net.units * fee_rate.units) <= 3_100_000_000) by (nonlinear_arith)
            requires
                -3_100_000_000 <= net.units <= 3_100_000_000,
                0 <= fee_rate.units <= 1,
        ;
        lemma_mul_units_bound(net, fee_rate);
    }
    let after_fees = net.mul(fee_rate);
    proof {
        assert(iabs(after_fees.units * tax_rate.units) <= 8_000_000_000) by (nonlinear_arith)
            requires
                -8_000_000_000 <= after_fees.units <= 8_000_000_000,
                0 <= tax_rate.units <= 1,
        ;
        lemma_mul_units_bound(after_fees, tax_rate);
    }
    let after_tax = after_fees.mul(tax_rate);
    let sum = p_in.add(p_out);
    proof {
        assert(iabs(sum.units * lots_q.units) <= 40_001 * 100_000) by (nonlinear_arith)
            requires
                0 <= sum.units <= 40_001,
                0 < lots_q.units <= 100_000,
        ;
        lemma_mul_exact_int_right(sum, lots_q);
        lemma_mul_units_bound(sum, lots_q);
    }
    let t = sum.mul(lots_q);
    let turnover: u32 = #[verifier::truncate] (t.units as u32);
    (ProfitStat { net, after_fees, after_tax }, turnover)
}

impl ProfitStat {
    /// The rendering of a profit: a bare zero when nothing was gained, else
    /// the three tiers joined by arrows.
    pub open spec fn spec_display(self) -> Seq<char> {
        if self.net.units == 0 && self.net.nano == 0 {
            "0"@
        } else {
            self.net.spec_display() + " -> "@ + self.after_fees.spec_display() + " -> "@
                + self.after_tax.spec_display()
        }
    }

    /// Renders the profit for people to read.
    pub fn display(&self) -> (r: String)
        requires
            self.net.is_normal(),
            self.after_fees.is_normal(),
            self.after_tax.is_normal(),
        ensures
            r@ == self.spec_display(),
    {
        if self.net.units == 0 && self.net.nano == 0 {
            String::new().concat("0")
        } else {
            let a = self.net.display();
            let b = self.after_fees.display();
            let c = self.after_tax.display();
            let s = a.concat(" -> ").concat(b.as_str()).concat(" -> ").concat(c.as_str());
            proof {
                assert(s@ =~= self.spec_display());
            }
            s
        }
    }
}

impl DayStat {
    /// The rendering of a day's summary line.
    pub open spec fn spec_display(self) -> Seq<char> {
        "Сегодня: "@ + self.date@ + "\nСделок: "@ + dec_digits(self.trades_count as int)
            + ", Прибыль: "@ + self.profit.spec_display()
    }

    /// Renders the day's summary for people to read.
    pub fn display(&self) -> (r: String)
        requires
            self.profit.net.is_normal(),
            self.profit.after_fees.is_normal(),
            self.profit.after_tax.is_normal(),
        ensures
            r@ == self.spec_display(),
    {
        let count = crate::numfmt::u64_to_dec(self.trades_count as u64);
        let profit = self.profit.display();
        let s = String::new().concat("Сегодня: ").concat(self.date.as_str()).concat(
            "\nСделок: ",
        ).concat(count.as_str()).concat(", Прибыль: ").concat(profit.as_str());
        proof {
            assert(s@ =~= self.spec_display());
        }
        s
    }
}

} // verus!
