//! Wall-clock readings in the exchange's fixed timezone. Every trading-time
//! decision is made from the hour and minute these wrappers hand out; the
//! arithmetic on them is verified elsewhere.

use chrono::TimeZone;
use chrono::Timelike;
use vstd::prelude::*;

verus! {

/// The `%H:%M` label chrono renders for a nanosecond UTC timestamp shifted to
/// Moscow time. It depends on the timestamp alone: the timezone table is
/// compiled into the library.
pub uninterp spec fn moscow_hm_of(nanos: int) -> Seq<char>;

/// Relies on `chrono::Timelike`: `hour()` is 0 to 23 and `minute()` is 0 to 59
/// for any `DateTime`, as its documentation states. The reading itself is the
/// clock's and nothing more can be promised of it.
#[verifier::external_body]
pub fn moscow_hour_minute() -> (r: (u32, u32))
    ensures
        r.0 < 24,
        r.1 < 60,
{
    let datetime: chrono::DateTime<chrono::Utc> = std::time::SystemTime::now().into();
    let moscow = datetime.with_timezone(&chrono_tz::Europe::Moscow);
    (moscow.hour(), moscow.minute())
}

/// Relies on `chrono::Utc::timestamp_nanos` and `DateTime::format`: the label
/// is a pure function of the timestamp, rendered as hours and minutes in
/// Moscow time.
#[verifier::external_body]
pub fn moscow_hm_label(nanos: i64) -> (r: String)
    ensures
        r@ == moscow_hm_of(nanos as int),
{
    let datetime = chrono::Utc.timestamp_nanos(nanos);
    let moscow = datetime.with_timezone(&chrono_tz::Europe::Moscow);
    moscow.format("%H:%M").to_string()
}

/// The label recorded for an order's fill time: the Moscow wall-clock
/// rendering when the broker reported a timestamp, a fixed note otherwise.
pub fn order_time_label(ts_nanos: Option<i64>) -> (r: String)
    ensures
        match ts_nanos {
            Some(n) => r@ == moscow_hm_of(n as int),
            None => r@ == "time undetermined"@,
        },
{
    match ts_nanos {
        Some(n) => moscow_hm_label(n),
        None => String::new().concat("time undetermined"),
    }
}

} // verus!
