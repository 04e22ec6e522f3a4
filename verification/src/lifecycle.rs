//! The position lifecycle: one round trip at a time, advanced by polling the
//! broker for the order relevant to the current sub-state. The control loop
//! performs the calls; these functions take what came back and decide the
//! next state and the action owed.

use vstd::prelude::*;

verus! {

use crate::money::Quotation;
use crate::numfmt::dec_digits;

/// Side of an order.
#[derive(Clone, Copy, PartialEq, Eq, Structural, Debug)]
pub enum OrderDirection {
    Buy,
    Sell,
}

/// The strategy's verdict for one evaluation: open or close a position at a
/// price, for a lot count and side, or sit still.
#[derive(Clone, Copy, PartialEq, Eq, Structural, Debug)]
pub enum Action {
    Close(Quotation, i64, OrderDirection),
    Open(Quotation, i64, OrderDirection),
    Hold,
}

/// Where a round trip stands: waiting for the entry order, partially opened,
/// holding with no exit order yet, waiting for the exit order, or partially
/// closed.
#[derive(Clone, Copy, PartialEq, Eq, Structural, Debug)]
pub enum PosState {
    WaitOpen,
    WaitClose,
    PartialOpen,
    PartialClose,
    Hold,
}

/// One round trip in progress.
#[derive(PartialEq, Debug)]
pub struct Position {
    pub state: PosState,
    pub price_in: Quotation,
    pub lots: i64,
    pub direction: OrderDirection,
    pub price_out: Quotation,
    /// Id of the entry order, set when the position is opened.
    pub open_id: String,
    /// Id of the exit order, set only once the exit order is placed.
    pub close_id: String,
}

/// The lifecycle state the control loop owns exclusively. `Seeking` carries
/// the available cash; `Sleeping` carries a start marker and the seconds to
/// sleep, both kept by the loop's own clock.
#[derive(PartialEq, Debug)]
pub enum State {
    InPosition(Position),
    Seeking(Quotation),
    Sleeping(u64, u64),
}

impl Position {
    /// The invariant a live position keeps: the entry id is set, lot count
    /// is positive once some fill was seen, and the exit id is set exactly
    /// when the exit order has been placed.
    pub open spec fn wf(self) -> bool {
        &&& self.open_id@.len() > 0
        &&& (self.state != PosState::WaitOpen ==> self.lots > 0)
        &&& ((self.state == PosState::WaitClose || self.state == PosState::PartialClose)
            <==> self.close_id@.len() > 0)
    }

    /// Is the position on its closing half: the exit order is what gets
    /// polled?
    pub open spec fn closing(self) -> bool {
        self.state == PosState::WaitClose || self.state == PosState::PartialClose
    }

    /// The id of the order the loop must poll this cycle: the exit order
    /// while closing, the entry order otherwise.
    pub fn poll_target(&self) -> (r: &String)
        ensures
            self.closing() ==> r@ == self.close_id@,
            !self.closing() ==> r@ == self.open_id@,
    {
        if matches!(self.state, PosState::WaitClose | PosState::PartialClose) {
            &self.close_id
        } else {
            &self.open_id
        }
    }
}

/// What the broker reports of one order when polled. The status code is the
/// broker's: 1 filled, 2 rejected, 3 cancelled, 4 new, 5 partially filled.
pub struct OrderReport {
    pub status: i32,
    pub avg_price: Option<Quotation>,
    pub lots_executed: i64,
}

/// What the control loop must do next after polling the order relevant to
/// the current sub-state.
pub enum PositionStep {
    /// The exit order filled: the round trip is complete; record the trade
    /// and re-seek with a refreshed balance.
    Closed(Position),
    /// The entry order filled at this average price for this many lots:
    /// place the matching exit order, then store it with `record_exit`.
    PlaceExit(Position, Quotation, i64),
    /// The order is resting or partially filled: keep the position and poll
    /// again next cycle.
    Keep(Position),
    /// Rejected, cancelled or unrecognized: reconcile against the broker,
    /// then fall back to seeking on the last known balance.
    Reconcile,
}

/// Advances a position by one polled status report. A partial fill always
/// re-marks the position as partially open, even when the polled order was
/// the exit order: partial exits are a known incompleteness this machine
/// keeps rather than guessing at partial-exit handling.
pub fn step_order_report(pos: Position, report: &OrderReport) -> (r: PositionStep)
    requires
        report.status == 1 || report.status == 5 ==> report.avg_price is Some,
    ensures
        pos.wf() && !pos.closing() && pos.lots > 0 && report.lots_executed > 0 ==> match r {
            PositionStep::Closed(p) => p.wf(),
            PositionStep::PlaceExit(p, _, _) => p.wf(),
            PositionStep::Keep(p) => p.wf(),
            PositionStep::Reconcile => true,
        },
        report.status == 1 && pos.closing() ==> r == PositionStep::Closed(pos),
        report.status == 1 && !pos.closing() ==> r == PositionStep::PlaceExit(
            Position { state: PosState::Hold, ..pos },
            report.avg_price->0,
            report.lots_executed,
        ),
        report.status == 5 ==> r == PositionStep::Keep(
            Position {
                state: PosState::PartialOpen,
                price_in: report.avg_price->0,
                lots: report.lots_executed,
                ..pos
            },
        ),
        report.status == 4 ==> r == PositionStep::Keep(pos),
        !(report.status == 1 || report.status == 4 || report.status == 5) ==> r
            == PositionStep::Reconcile,
{
    let mut pos = pos;
    if report.status == 1 {
        if matches!(pos.state, PosState::WaitClose | PosState::PartialClose) {
            PositionStep::Closed(pos)
        } else {
            pos.state = PosState::Hold;
            let price = match &report.avg_price {
                Some(p) => *p,
                None => Quotation { units: 0, nano: 0 },
            };
            PositionStep::PlaceExit(pos, price, report.lots_executed)
        }
    } else if report.status == 5 {
        pos.state = PosState::PartialOpen;
        pos.price_in = match &report.avg_price {
            Some(p) => *p,
            None => Quotation { units: 0, nano: 0 },
        };
        pos.lots = report.lots_executed;
        PositionStep::Keep(pos)
    } else if report.status == 4 {
        PositionStep::Keep(pos)
    } else {
        PositionStep::Reconcile
    }
}

/// A fresh position for a decision taken while seeking: the entry order was
/// just placed under the given id and everything else awaits the fill.
pub fn open_position(
    price: Quotation,
    lots: i64,
    direction: OrderDirection,
    entry_order_id: String,
) -> (r: Position)
    ensures
        r.state == PosState::WaitOpen,
        r.price_in == price,
        r.lots == lots,
        r.direction == direction,
        r.price_out == (Quotation { units: 0, nano: 0 }),
        r.open_id@ == entry_order_id@,
        r.close_id@.len() == 0,
        entry_order_id@.len() > 0 ==> r.wf(),
{
    Position {
        state: PosState::WaitOpen,
        price_in: price,
        lots,
        direction,
        price_out: Quotation { units: 0, nano: 0 },
        open_id: entry_order_id,
        close_id: String::new(),
    }
}

/// The entry price, lot count and side the strategy asked to trade, if the
/// verdict was to trade at all.
pub fn decide_entry(action: &Action) -> (r: Option<(Quotation, i64, OrderDirection)>)
    ensures
        match *action {
            Action::Open(p, l, d) => r == Some((p, l, d)),
            Action::Close(p, l, d) => r == Some((p, l, d)),
            Action::Hold => r is None,
        },
{
    match action {
        Action::Open(p, l, d) => Some((*p, *l, *d)),
        Action::Close(p, l, d) => Some((*p, *l, *d)),
        Action::Hold => None,
    }
}

/// Stores a just-placed exit order: the position moves to waiting for the
/// close at the exit price.
pub fn record_exit(pos: Position, exit_price: Quotation, exit_id: String) -> (r: Position)
    ensures
        r == (Position {
            state: PosState::WaitClose,
            price_out: exit_price,
            close_id: exit_id,
            ..pos
        }),
        pos.open_id@.len() > 0 && pos.lots > 0 && exit_id@.len() > 0 ==> r.wf(),
{
    let mut pos = pos;
    pos.state = PosState::WaitClose;
    pos.price_out = exit_price;
    pos.close_id = exit_id;
    pos
}

/// Should a sleeping loop wake? Only once the slept time has reached the
/// owed duration.
pub fn wake_due(elapsed_secs: u64, dur_secs: u64) -> (r: bool)
    ensures
        r == (elapsed_secs >= dur_secs),
{
    elapsed_secs >= dur_secs
}

/// Does an empty market snapshot put this state to sleep? Only seeking and
/// in-position states park; a sleeping state stays as it is.
pub fn sleeps_on_empty_market(state: &State) -> (r: bool)
    ensures
        r == !(*state is Sleeping),
{
    !matches!(state, State::Sleeping(_, _))
}

/// The next order id: the counter strictly increases, and the id text is the
/// decimal rendering of the new counter, so an id is never reused.
pub fn next_order_id(prev: u32) -> (r: (u32, String))
    requires
        prev < u32::MAX,
    ensures
        r.0 == prev + 1,
        r.1@ == dec_digits(r.0 as int),
{
    let next = prev + 1;
    let text = crate::numfmt::u64_to_dec(next as u64);
    (next, text)
}

/// Order ids are never reused: distinct counter values always render to
/// distinct id strings, so together with the strictly increasing counter no
/// two placements, even across a restart that re-reads the persisted
/// counter, share an id.
pub proof fn lemma_order_ids_distinct(a: int, b: int)
    requires
        0 <= a,
        0 <= b,
        a != b,
    ensures
        dec_digits(a) != dec_digits(b),
{
    crate::numfmt::lemma_dec_digits_injective(a, b);
}

} // verus!
