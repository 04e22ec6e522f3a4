//! The scalp strategy: it watches the top of the order book, keeps rolling
//! averages of the best ask and bid quantities, and trades when both the
//! rolling-average signal and the ask-to-bid ratio point the same way.

use vstd::prelude::*;

verus! {

use crate::broker::Candle;
use crate::broker::OrderBook;
use crate::lifecycle::Action;
use crate::lifecycle::OrderDirection;
use crate::lifecycle::State;
use crate::money::lemma_tdiv_trem;
use crate::money::tdiv;
use crate::money::tdiv_i64_signed;
use crate::money::tdiv_signed;
use crate::money::trem;
use crate::money::Quotation;
use crate::strategy::AnalysisType;
use crate::strategy::Settings;
use crate::strategy::Strategy;

/// The largest top-of-book quantity the rolling statistics accept.
pub const QUANTITY_CAP: i64 = 1_000_000_000_000_000;

/// The sum of a sequence of quantities.
pub open spec fn seq_sum(s: Seq<i64>) -> int
    decreases s.len(),
{
    if s.len() == 0 {
        0
    } else {
        seq_sum(s.drop_last()) + s.last()
    }
}

/// The scalp strategy's rolling state: every observed best-ask and best-bid
/// quantity, with their running averages.
pub struct Scalp {
    pub c_bid_q_vec: Vec<i64>,
    pub c_bid_q_avg: i64,
    pub c_ask_q_vec: Vec<i64>,
    pub c_ask_q_avg: i64,
}

impl Scalp {
    /// The invariant the rolling state keeps: positive, bounded quantities
    /// and averages within the same bound.
    pub open spec fn wf(self) -> bool {
        &&& (forall|i: int|
            0 <= i < self.c_ask_q_vec@.len() ==> 0 < #[trigger] self.c_ask_q_vec@[i]
                <= QUANTITY_CAP)
        &&& (forall|i: int|
            0 <= i < self.c_bid_q_vec@.len() ==> 0 < #[trigger] self.c_bid_q_vec@[i]
                <= QUANTITY_CAP)
        &&& 0 <= self.c_ask_q_avg <= QUANTITY_CAP
        &&& 0 <= self.c_bid_q_avg <= QUANTITY_CAP
    }

    /// A fresh strategy with empty statistics.
    pub fn new() -> (r: Scalp)
        ensures
            r.c_bid_q_vec@.len() == 0,
            r.c_bid_q_avg == 0,
            r.c_ask_q_vec@.len() == 0,
            r.c_ask_q_avg == 0,
            r.wf(),
    {
        Scalp {
            c_bid_q_vec: Vec::with_capacity(40),
            c_bid_q_avg: 0,
            c_ask_q_vec: Vec::with_capacity(40),
            c_ask_q_avg: 0,
        }
    }

    /// What `compute_price` yields: the price moved by hundredths of a
    /// unit, carrying across the unit boundary in either direction.
    pub open spec fn spec_compute_price(q: Quotation, shift: int) -> Quotation {
        let n2 = q.nano + 10_000_000 * shift;
        if n2 == 1_000_000_000 {
            Quotation { units: (q.units + 1) as i64, nano: 0 }
        } else if n2 == -10_000_000 {
            Quotation { units: (q.units - 1) as i64, nano: 990_000_000 }
        } else {
            Quotation { units: q.units, nano: n2 as i32 }
        }
    }

    /// Moves a price by whole hundredths of a unit.
    pub fn compute_price(q: &Quotation, shift: i32) -> (r: Quotation)
        requires
            q.nano_in_range(),
            -100 <= shift <= 100,
            i64::MIN < q.units < i64::MAX,
        ensures
            r == Self::spec_compute_price(*q, shift as int),
    {
        let n2: i32 = q.nano + 10_000_000 * shift;
        if n2 == 1_000_000_000 {
            Quotation { units: q.units + 1, nano: 0 }
        } else if n2 == -10_000_000 {
            Quotation { units: q.units - 1, nano: 990_000_000 }
        } else {
            Quotation { units: q.units, nano: n2 }
        }
    }

    /// What `compute_lots_quantity` yields: both values reduced to whole
    /// hundredths of a unit, then divided, every step truncating toward
    /// zero as the machine does.
    pub open spec fn spec_lots_quantity(a: Quotation, b: Quotation) -> int {
        tdiv_signed(
            a.units * 100 + tdiv(a.nano as int, 10_000_000),
            b.units * 100 + tdiv(b.nano as int, 10_000_000),
        )
    }

    /// How many times the second amount fits into the first, counting in
    /// hundredths of a unit. The second amount must not reduce to zero
    /// hundredths.
    pub fn compute_lots_quantity(a: &Quotation, b: &Quotation) -> (r: i64)
        requires
            a.nano_in_range(),
            b.nano_in_range(),
            -92_000_000_000_000_000 <= a.units <= 92_000_000_000_000_000,
            -92_000_000_000_000_000 <= b.units <= 92_000_000_000_000_000,
            b.units * 100 + tdiv(b.nano as int, 10_000_000) != 0,
        ensures
            r == Self::spec_lots_quantity(*a, *b),
    {
        proof {
            lemma_tdiv_trem(a.nano as int, 10_000_000);
            lemma_tdiv_trem(b.nano as int, 10_000_000);
            assert(10_000_000 * tdiv(a.nano as int, 10_000_000) + trem(a.nano as int, 10_000_000)
                == a.nano as int);
            assert(10_000_000 * tdiv(b.nano as int, 10_000_000) + trem(b.nano as int, 10_000_000)
                == b.nano as int);
        }
        let frac_a: i64 = tdiv_i64_signed(a.nano as i64, 10_000_000);
        let frac_b: i64 = tdiv_i64_signed(b.nano as i64, 10_000_000);
        let hundredths_a: i64 = a.units * 100 + frac_a;
        let hundredths_b: i64 = b.units * 100 + frac_b;
        tdiv_i64_signed(hundredths_a, hundredths_b)
    }
}

/// The opposite side.
pub open spec fn spec_flip(d: OrderDirection) -> OrderDirection {
    if d == OrderDirection::Buy {
        OrderDirection::Sell
    } else {
        OrderDirection::Buy
    }
}

/// The action the scalp strategy takes, judged from its rolling averages
/// before this snapshot, the top-of-book quantities, and the current state.
/// A position is closed when both the rolling-average signal and the
/// ask-to-bid ratio favour the bid side; a position is opened short when
/// both favour the ask side while seeking.
pub open spec fn spec_scalp_action(
    pre: Scalp,
    ask: int,
    bid: int,
    state: &State,
    price0: Quotation,
) -> Action {
    let ask_a = (pre.c_ask_q_avg as int) / ask > 3;
    let bid_a = (pre.c_bid_q_avg as int) / bid > 3;
    if !ask_a && bid_a && ask > 3 * bid {
        match *state {
            State::InPosition(pos) => Action::Close(
                pos.price_in,
                pos.lots,
                spec_flip(pos.direction),
            ),
            _ => Action::Hold,
        }
    } else if ask_a && !bid_a && 20 * ask < 7 * bid {
        match *state {
            State::Seeking(mv) => {
                let price = Scalp::spec_compute_price(price0, 0);
                Action::Open(
                    price,
                    Scalp::spec_lots_quantity(price, mv) as i64,
                    OrderDirection::Sell,
                )
            },
            _ => Action::Hold,
        }
    } else {
        Action::Hold
    }
}

/// Pushes a quantity and returns the new running average.
fn push_and_avg(v: &mut Vec<i64>, q: i64) -> (avg: i64)
    requires
        forall|i: int| 0 <= i < old(v)@.len() ==> 0 < #[trigger] old(v)@[i] <= QUANTITY_CAP,
        0 < q <= QUANTITY_CAP,
    ensures
        final(v)@ == old(v)@.push(q),
        avg == seq_sum(final(v)@) / (final(v)@.len() as int),
        0 <= avg <= QUANTITY_CAP,
        forall|i: int| 0 <= i < final(v)@.len() ==> 0 < #[trigger] final(v)@[i] <= QUANTITY_CAP,
{
    v.push(q);
    let mut i: usize = 0;
    let mut sum: u128 = 0;
    while i < v.len()
        invariant
            forall|k: int| 0 <= k < v@.len() ==> 0 < #[trigger] v@[k] <= QUANTITY_CAP,
            v@.len() > 0,
            i <= v@.len(),
            sum == seq_sum(v@.subrange(0, i as int)),
            sum <= (i as int) * QUANTITY_CAP,
        decreases v@.len() - i,
    {
        proof {
            assert(v@.subrange(0, i + 1).drop_last() =~= v@.subrange(0, i as int));
            assert(v@.subrange(0, i + 1).last() == v@[i as int]);
        }
        sum = sum + (v[i] as u128);
        i = i + 1;
    }
    proof {
        assert(v@.subrange(0, v@.len() as int) =~= v@);
    }
    let len: u128 = v.len() as u128;
    let avg: u128 = sum / len;
    proof {
        vstd::arithmetic::div_mod::lemma_div_is_ordered(
            sum as int,
            (len as int) * (QUANTITY_CAP as int),
            len as int,
        );
        vstd::arithmetic::div_mod::lemma_div_multiples_vanish(
            QUANTITY_CAP as int,
            len as int,
        );
        assert((len as int) * (QUANTITY_CAP as int) == (QUANTITY_CAP as int) * (len as int))
            by (nonlinear_arith);
    }
    avg as i64
}

impl Strategy for Scalp {
    /// Ready when both sides of the book have a top level with a positive,
    /// bounded quantity, the best ask price is sane, the rolling state
    /// keeps its invariant, and a seeking balance is sane too.
    open spec fn ob_ready(&self, orders: &OrderBook, state: &State) -> bool {
        &&& self.wf()
        &&& orders.asks@.len() > 0
        &&& orders.bids@.len() > 0
        &&& 0 < orders.asks@[0].quantity <= QUANTITY_CAP
        &&& 0 < orders.bids@[0].quantity <= QUANTITY_CAP
        &&& orders.asks@[0].price.is_normal()
        &&& 0 <= orders.asks@[0].price.units <= 92_000_000_000_000_000
        &&& (*state is Seeking ==> (state->Seeking_0).is_normal() && 0 <= (
        state->Seeking_0).units <= 92_000_000_000_000_000 && (state->Seeking_0).units * 100 + (
        state->Seeking_0).nano / 10_000_000 > 0)
    }

    /// Both rolling sides took the observed quantity, the averages were
    /// refreshed, and the action is the scalp decision on the old averages.
    open spec fn ob_ens(
        pre: Scalp,
        post: Scalp,
        orders: &OrderBook,
        state: &State,
        r: Action,
    ) -> bool {
        &&& post.c_ask_q_vec@ == pre.c_ask_q_vec@.push(orders.asks@[0].quantity)
        &&& post.c_bid_q_vec@ == pre.c_bid_q_vec@.push(orders.bids@[0].quantity)
        &&& post.c_ask_q_avg == seq_sum(post.c_ask_q_vec@) / (post.c_ask_q_vec@.len() as int)
        &&& post.c_bid_q_avg == seq_sum(post.c_bid_q_vec@) / (post.c_bid_q_vec@.len() as int)
        &&& post.wf()
        &&& r == spec_scalp_action(
            pre,
            orders.asks@[0].quantity as int,
            orders.bids@[0].quantity as int,
            state,
            orders.asks@[0].price,
        )
    }

    /// This strategy never takes candles: the candle path is unreachable.
    open spec fn candles_ready(&self, candles: &Vec<Candle>, state: &State) -> bool {
        false
    }

    open spec fn candles_ens(
        pre: Scalp,
        post: Scalp,
        candles: &Vec<Candle>,
        state: &State,
        r: Action,
    ) -> bool {
        true
    }

    open spec fn tp_ready(&self, price: Quotation, lots: i64) -> bool {
        price.nano_in_range() && i64::MIN < price.units < i64::MAX
    }

    /// The exit order is the entry price one hundredth higher, for the same
    /// lot count, on the sell side; the rolling state is untouched.
    open spec fn tp_ens(
        pre: Scalp,
        post: Scalp,
        price: Quotation,
        lots: i64,
        r: (Quotation, i64, OrderDirection),
    ) -> bool {
        &&& post == pre
        &&& r == (Self::spec_compute_price(price, 1), lots, OrderDirection::Sell)
    }

    fn analyze_ob(&mut self, orders: &OrderBook, state: &State) -> (r: Action) {
        let ghost pre = *self;
        let ask_q = orders.asks[0].quantity;
        let bid_q = orders.bids[0].quantity;
        let ask_a = (self.c_ask_q_avg as u64) / (ask_q as u64) > 3;
        let new_ask_avg = push_and_avg(&mut self.c_ask_q_vec, ask_q);
        self.c_ask_q_avg = new_ask_avg;
        let bid_a = (self.c_bid_q_avg as u64) / (bid_q as u64) > 3;
        let new_bid_avg = push_and_avg(&mut self.c_bid_q_vec, bid_q);
        self.c_bid_q_avg = new_bid_avg;
        if !ask_a && bid_a && ask_q > 3 * bid_q {
            match state {
                State::InPosition(pos) => {
                    let flipped = if matches!(pos.direction, OrderDirection::Buy) {
                        OrderDirection::Sell
                    } else {
                        OrderDirection::Buy
                    };
                    Action::Close(pos.price_in, pos.lots, flipped)
                },
                _ => Action::Hold,
            }
        } else if ask_a && !bid_a && 20 * ask_q < 7 * bid_q {
            match state {
                State::Seeking(mv) => {
                    let price = Scalp::compute_price(&orders.asks[0].price, 0);
                    let lots = Scalp::compute_lots_quantity(&price, mv);
                    Action::Open(price, lots, OrderDirection::Sell)
                },
                _ => Action::Hold,
            }
        } else {
            Action::Hold
        }
    }

    fn analyze_c(&mut self, candles: &Vec<Candle>, state: &State) -> (r: Action) {
        proof {
            assert(false);
        }
        Action::Hold
    }

    fn get_take_profit(&mut self, price: Quotation, lots: i64) -> (r: (
        Quotation,
        i64,
        OrderDirection,
    )) {
        (Scalp::compute_price(&price, 1), lots, OrderDirection::Sell)
    }

    /// Pins the configuration this strategy runs with.
    open spec fn settings_ens(&self, r: Settings) -> bool {
        &&& r.account_id@ == "2157068285"@
        &&& r.ticker@ == "TRUR"@
        &&& r.uid@ == "e2d0dbac-d354-4c36-a5ed-e5aae42ffc76"@
        &&& r.figi@ == "BBG000000001"@
        &&& r.class_code@ == "TQTF"@
        &&& r.trading_time@.len() == 1
        &&& r.trading_time@[0] == (10u32, 0u32, 18u32, 40u32)
        &&& r.data_type == AnalysisType::OrderBook(10)
        &&& r.fee_rate == (Quotation { units: 0, nano: 0 })
        &&& r.tax_rate == (Quotation { units: 0, nano: 130_000_000 })
    }

    fn get_settings(&self) -> (r: Settings) {
        let mut trading_time: Vec<(u32, u32, u32, u32)> = Vec::new();
        trading_time.push((10, 0, 18, 40));
        Settings {
            account_id: String::new().concat("2157068285"),
            ticker: String::new().concat("TRUR"),
            uid: String::new().concat("e2d0dbac-d354-4c36-a5ed-e5aae42ffc76"),
            figi: String::new().concat("BBG000000001"),
            class_code: String::new().concat("TQTF"),
            trading_time,
            data_type: AnalysisType::OrderBook(10),
            fee_rate: Quotation { units: 0, nano: 0 },
            tax_rate: Quotation { units: 0, nano: 130_000_000 },
        }
    }
}

} // verus!
