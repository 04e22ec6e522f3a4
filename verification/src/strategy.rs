//! The strategy capability interface and the per-run configuration a
//! strategy exposes: what instrument to trade, when, at which fee and tax
//! rates, and which kind of market data it wants.

use vstd::prelude::*;

verus! {

use crate::broker::Candle;
use crate::broker::OrderBook;
use crate::lifecycle::Action;
use crate::lifecycle::OrderDirection;
use crate::lifecycle::State;
use crate::money::Quotation;

/// The candle interval of the market-data subscription.
#[derive(Clone, Copy, PartialEq, Eq, Structural, Debug)]
pub enum CandleInterval {
    Unspecified,
    OneMin,
    FiveMin,
    FifteenMin,
    Hour,
    Day,
}

/// Which market data the strategy consumes: an order book of some depth, or
/// candles at some interval. A strategy supports exactly one of them.
#[derive(Clone, Copy, PartialEq, Eq, Structural, Debug)]
pub enum AnalysisType {
    OrderBook(i32),
    Candle(CandleInterval),
}

/// Static per-run configuration: account and instrument identifiers, the
/// configured trading windows, the market-data mode, and the fee and tax
/// rate multipliers.
#[derive(PartialEq, Debug)]
pub struct Settings {
    pub account_id: String,
    pub ticker: String,
    pub uid: String,
    pub figi: String,
    pub class_code: String,
    pub trading_time: Vec<(u32, u32, u32, u32)>,
    pub data_type: AnalysisType,
    pub fee_rate: Quotation,
    pub tax_rate: Quotation,
}

/// The capability interface a strategy implements: judge a market snapshot
/// against the current lifecycle state, produce the exit order matching an
/// entry fill, and expose its configuration. Each implementation states
/// through the spec functions what it demands of its inputs and what it
/// promises of its results; a strategy that does not support a market-data
/// kind declares its readiness for it false, so that no caller can reach
/// the unsupported path.
pub trait Strategy: Sized {
    /// What the strategy demands of an order-book snapshot and the state
    /// before judging them.
    spec fn ob_ready(&self, orders: &OrderBook, state: &State) -> bool;

    /// What holds after an order-book evaluation: the follow-up state and
    /// the action returned.
    spec fn ob_ens(pre: Self, post: Self, orders: &OrderBook, state: &State, r: Action) -> bool;

    /// What the strategy demands of a candle history and the state before
    /// judging them; false throughout for a strategy that does not take
    /// candles.
    spec fn candles_ready(&self, candles: &Vec<Candle>, state: &State) -> bool;

    /// What holds after a candle evaluation.
    spec fn candles_ens(
        pre: Self,
        post: Self,
        candles: &Vec<Candle>,
        state: &State,
        r: Action,
    ) -> bool;

    /// What the strategy demands of an entry fill before producing the exit
    /// order.
    spec fn tp_ready(&self, price: Quotation, lots: i64) -> bool;

    /// What holds of the exit order produced for an entry fill.
    spec fn tp_ens(
        pre: Self,
        post: Self,
        price: Quotation,
        lots: i64,
        r: (Quotation, i64, OrderDirection),
    ) -> bool;

    /// Judges an order-book snapshot against the current lifecycle state.
    fn analyze_ob(&mut self, orders: &OrderBook, state: &State) -> (r: Action)
        requires
            old(self).ob_ready(orders, state),
        ensures
            Self::ob_ens(*old(self), *final(self), orders, state, r),
    ;

    /// Judges a candle history against the current lifecycle state.
    fn analyze_c(&mut self, candles: &Vec<Candle>, state: &State) -> (r: Action)
        requires
            old(self).candles_ready(candles, state),
        ensures
            Self::candles_ens(*old(self), *final(self), candles, state, r),
    ;

    /// The exit order matching an entry fill: price, lot count and side.
    fn get_take_profit(&mut self, price: Quotation, lots: i64) -> (r: (
        Quotation,
        i64,
        OrderDirection,
    ))
        requires
            old(self).tp_ready(price, lots),
        ensures
            Self::tp_ens(*old(self), *final(self), price, lots, r),
    ;

    /// What holds of the configuration handed out.
    spec fn settings_ens(&self, r: Settings) -> bool;

    /// The static configuration for this run.
    fn get_settings(&self) -> (r: Settings)
        ensures
            self.settings_ens(r),
    ;
}

} // verus!
