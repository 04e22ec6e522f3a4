//! Reconciliation: when an order comes back rejected, cancelled or in an
//! unrecognized state, local belief is held against the broker's truth. A
//! portfolio check compares held lots with the expected count; an orders
//! check compares resting orders with the sub-state. Any failing check is
//! fatal by design: the system alerts the operator and stops rather than
//! trade on from confirmed drift. When both checks pass there is no drift
//! and the call is a no-op.

use vstd::prelude::*;

verus! {

use crate::lifecycle::PosState;
use crate::lifecycle::State;

/// The lots the lifecycle believes are held: the position's count while in
/// a position, zero while seeking or sleeping.
pub open spec fn spec_expected_lots(state: State) -> int {
    match state {
        State::InPosition(p) => p.lots as int,
        _ => 0,
    }
}

/// The portfolio check: the broker-reported balance of the instrument
/// (held plus blocked) must equal the expected lot count.
pub fn portfolio_check(state: &State, reported_balance: i64) -> (r: bool)
    ensures
        r == (spec_expected_lots(*state) == reported_balance),
{
    match state {
        State::InPosition(pos) => pos.lots == reported_balance,
        State::Seeking(_) => reported_balance == 0,
        State::Sleeping(_, _) => reported_balance == 0,
    }
}

/// What the orders check decides from a snapshot of resting orders: pass, or
/// cancel every resting order (best effort) and report failure for this
/// cycle.
#[derive(Clone, Copy, PartialEq, Eq, Structural, Debug)]
pub enum OrdersCheck {
    Pass,
    CancelAllAndFail,
}

/// What the orders check decides. Out of a position, any resting order is
/// unexpected. In a position, resting orders must exist unless no exit
/// order has been placed yet (`Hold`): an empty book is exactly what `Hold`
/// expects, and only there; anywhere else an empty book, or a stray order
/// in `Hold`, fails the cycle.
pub open spec fn spec_orders_check(state: State, orders_empty: bool) -> OrdersCheck {
    match state {
        State::Seeking(_) | State::Sleeping(_, _) => if orders_empty {
            OrdersCheck::Pass
        } else {
            OrdersCheck::CancelAllAndFail
        },
        State::InPosition(pos) => if (pos.state == PosState::Hold) == orders_empty {
            OrdersCheck::Pass
        } else {
            OrdersCheck::CancelAllAndFail
        },
    }
}

/// Runs the orders check decision on the snapshot.
pub fn orders_check(state: &State, orders_empty: bool) -> (r: OrdersCheck)
    ensures
        r == spec_orders_check(*state, orders_empty),
{
    match state {
        State::Seeking(_) | State::Sleeping(_, _) => {
            if orders_empty {
                OrdersCheck::Pass
            } else {
                OrdersCheck::CancelAllAndFail
            }
        },
        State::InPosition(pos) => {
            match (&pos.state, orders_empty) {
                (PosState::Hold, true) => OrdersCheck::Pass,
                (PosState::Hold, false) => OrdersCheck::CancelAllAndFail,
                (_, true) => OrdersCheck::CancelAllAndFail,
                _ => OrdersCheck::Pass,
            }
        },
    }
}

/// The reconciliation outcome: which check, if any, found drift. Any
/// verdict with a failing check is fatal by design; `NothingWrong` means
/// the broker's truth matches local belief and the call is a no-op.
#[derive(Clone, Copy, PartialEq, Eq, Structural, Debug)]
pub enum DriftVerdict {
    BothWrong,
    OrdersWrong,
    PortfolioWrong,
    NothingWrong,
}

/// Is the verdict fatal? Exactly the verdicts where a check failed: the
/// system never attempts automatic recovery from confirmed drift, and never
/// terminates when there was none.
pub open spec fn spec_is_fatal(v: DriftVerdict) -> bool {
    v != DriftVerdict::NothingWrong
}

/// Decides whether the verdict terminates the run.
pub fn is_fatal(v: &DriftVerdict) -> (r: bool)
    ensures
        r == spec_is_fatal(*v),
{
    !matches!(v, DriftVerdict::NothingWrong)
}

/// The verdict from the two check results.
pub open spec fn spec_drift_verdict(portfolio_ok: bool, orders_ok: bool) -> DriftVerdict {
    if !portfolio_ok && !orders_ok {
        DriftVerdict::BothWrong
    } else if portfolio_ok && !orders_ok {
        DriftVerdict::OrdersWrong
    } else if !portfolio_ok {
        DriftVerdict::PortfolioWrong
    } else {
        DriftVerdict::NothingWrong
    }
}

/// Combines the two check results into the verdict.
pub fn drift_verdict(portfolio_ok: bool, orders_ok: bool) -> (r: DriftVerdict)
    ensures
        r == spec_drift_verdict(portfolio_ok, orders_ok),
{
    match (portfolio_ok, orders_ok) {
        (false, false) => DriftVerdict::BothWrong,
        (true, false) => DriftVerdict::OrdersWrong,
        (false, true) => DriftVerdict::PortfolioWrong,
        (true, true) => DriftVerdict::NothingWrong,
    }
}

/// The operator alert naming the failing check or checks. The caller sends
/// it exactly once, then stops the process; a non-fatal verdict owes no
/// alert and cannot reach this function.
pub fn drift_alert(v: &DriftVerdict) -> (r: String)
    requires
        spec_is_fatal(*v),
    ensures
        *v == DriftVerdict::BothWrong ==> r@ == "Unexpected orders and portfolio state"@,
        *v == DriftVerdict::OrdersWrong ==> r@ == "Unexpected orders"@,
        *v == DriftVerdict::PortfolioWrong ==> r@ == "Unexpected portfolio state"@,
{
    match v {
        DriftVerdict::BothWrong => String::new().concat("Unexpected orders and portfolio state"),
        DriftVerdict::OrdersWrong => String::new().concat("Unexpected orders"),
        DriftVerdict::PortfolioWrong => String::new().concat("Unexpected portfolio state"),
        DriftVerdict::NothingWrong => {
            proof {
                assert(false);
            }
            String::new()
        },
    }
}

/// Reconciliation fatality: while seeking, a non-zero reported instrument
/// balance with no resting orders fails the portfolio check alone, and the
/// verdict is fatal portfolio drift. The loop raises one alert for it and
/// terminates; it never trades on. Had both checks passed instead, the
/// verdict would not be fatal and the call a no-op.
pub proof fn lemma_seeking_nonzero_balance_is_fatal(
    balance: crate::money::Quotation,
    reported: i64,
)
    requires
        reported != 0,
    ensures
        spec_expected_lots(State::Seeking(balance)) != reported,
        spec_orders_check(State::Seeking(balance), true) == OrdersCheck::Pass,
        spec_drift_verdict(false, true) == DriftVerdict::PortfolioWrong,
        spec_is_fatal(spec_drift_verdict(false, true)),
        !spec_is_fatal(spec_drift_verdict(true, true)),
{
}

} // verus!
