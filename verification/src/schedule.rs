//! The trading-window scheduler. Windows are `(from_hour, from_minute,
//! to_hour, to_minute)` tuples in the exchange's timezone, sorted by start
//! time; a late hour may exceed 24 to express an overnight window. At startup
//! every boundary is shifted one step back so a window becomes active one
//! minute early; afterwards the scheduler answers whether trading is open now
//! and how long to sleep until the next window opens.

use vstd::prelude::*;

verus! {

/// One daily trading window.
pub type Window = (u32, u32, u32, u32);

/// The startup adjustment applied to one window: an end hour smaller than
/// the start hour is read as overnight and gets a day added, then each
/// boundary steps back one minute, borrowing from the hour and saturating
/// into the previous day, so a window becomes active one minute early.
pub open spec fn spec_shift_window(w: Window) -> Window {
    let th = if w.2 < w.0 { (w.2 + 24) as u32 } else { w.2 };
    let fh = if w.1 == 0 { (if w.0 == 0 { 23u32 } else { (w.0 - 1) as u32 }) } else { w.0 };
    let fm = if w.1 == 0 { 59u32 } else { (w.1 - 1) as u32 };
    let th2 = if w.3 == 0 { (if th == 0 { 23u32 } else { (th - 1) as u32 }) } else { th };
    let tm = if w.3 == 0 { 59u32 } else { (w.3 - 1) as u32 };
    (fh, fm, th2, tm)
}

/// A window's start expressed in minutes of the day.
pub open spec fn start_minutes(w: Window) -> int {
    w.0 * 60 + w.1
}

/// Does the window start strictly after the given minute of the day?
pub open spec fn window_after(w: Window, now_min: int) -> bool {
    start_minutes(w) > now_min
}

/// The sleep the scheduler owes at `now_min`, scanning the windows from
/// index `i`: seconds until the first window that starts strictly after now,
/// or, when none is left today, until the first window of the next day.
pub open spec fn spec_sleep_secs(ws: Seq<Window>, i: int, now_min: int) -> int
    decreases ws.len() - i,
{
    if i < 0 || i >= ws.len() {
        (start_minutes(ws[0]) + 1439 - now_min) * 60
    } else if window_after(ws[i], now_min) {
        (start_minutes(ws[i]) - now_min) * 60
    } else {
        spec_sleep_secs(ws, i + 1, now_min)
    }
}

/// Is the given minute of the day inside the window, at minute granularity
/// (the closing minute itself is outside)? An end past 24 hours also catches
/// the small hours of the next day.
pub open spec fn in_window(w: Window, now_min: int) -> bool {
    let end = w.2 * 60 + w.3;
    (start_minutes(w) <= now_min < end) || (start_minutes(w) <= now_min + 1440 < end)
}

/// Every window holds hours and minutes that the scheduler arithmetic can
/// take: a start within the day, an end within two days.
pub open spec fn windows_wf(ws: Seq<Window>) -> bool {
    forall|i: int|
        0 <= i < ws.len() ==> (#[trigger] ws[i]).0 < 24 && ws[i].1 < 60 && ws[i].2 < 48
            && ws[i].3 < 60
}

/// Applies the startup shift to every configured window.
pub fn shift_windows(windows: &Vec<Window>) -> (r: Vec<Window>)
    requires
        windows_wf(windows@),
    ensures
        r@.len() == windows@.len(),
        forall|i: int| 0 <= i < r@.len() ==> r@[i] == spec_shift_window(windows@[i]),
        windows_wf(r@),
{
    let mut out: Vec<Window> = Vec::new();
    let mut k: usize = 0;
    while k < windows.len()
        invariant
            windows_wf(windows@),
            k <= windows@.len(),
            out@.len() == k,
            forall|i: int| 0 <= i < k ==> out@[i] == spec_shift_window(windows@[i]),
            windows_wf(out@),
        decreases windows@.len() - k,
    {
        let (fh0, fm0, th0, tm0) = windows[k];
        let th1: u32 = if th0 < fh0 {
            th0 + 24
        } else {
            th0
        };
        let (fh, fm): (u32, u32) = if fm0 == 0 {
            (if fh0 == 0 { 23 } else { fh0 - 1 }, 59)
        } else {
            (fh0, fm0 - 1)
        };
        let (th, tm): (u32, u32) = if tm0 == 0 {
            (if th1 == 0 { 23 } else { th1 - 1 }, 59)
        } else {
            (th1, tm0 - 1)
        };
        out.push((fh, fm, th, tm));
        k = k + 1;
    }
    out
}

/// Seconds to sleep from `h:m` until the next window opens: the first window
/// that starts strictly after now, or the first window of the next day when
/// none is left today.
pub fn sleep_duration_secs(windows: &Vec<Window>, h: u32, m: u32) -> (r: u64)
    requires
        windows@.len() > 0,
        windows_wf(windows@),
        h < 24,
        m < 60,
    ensures
        r == spec_sleep_secs(windows@, 0, h * 60 + m),
{
    let now_min: u64 = (h as u64) * 60 + (m as u64);
    let mut k: usize = 0;
    while k < windows.len()
        invariant
            windows@.len() > 0,
            windows_wf(windows@),
            h < 24,
            m < 60,
            now_min == h * 60 + m,
            k <= windows@.len(),
            spec_sleep_secs(windows@, 0, h * 60 + m) == spec_sleep_secs(
                windows@,
                k as int,
                h * 60 + m,
            ),
        decreases windows@.len() - k,
    {
        let (fh, fm, _, _) = windows[k];
        let start: u64 = (fh as u64) * 60 + (fm as u64);
        if start > now_min {
            return (start - now_min) * 60;
        }
        k = k + 1;
    }
    let (fh, fm, _, _) = windows[0];
    ((fh as u64) * 60 + (fm as u64) + 1439 - now_min) * 60
}

/// Does `h:m` fall inside any configured window?
pub fn is_open(windows: &Vec<Window>, h: u32, m: u32) -> (r: bool)
    requires
        windows_wf(windows@),
        h < 24,
        m < 60,
    ensures
        r == exists|i: int| 0 <= i < windows@.len() && in_window(windows@[i], h * 60 + m),
{
    let now_min: u64 = (h as u64) * 60 + (m as u64);
    let mut k: usize = 0;
    while k < windows.len()
        invariant
            windows_wf(windows@),
            h < 24,
            m < 60,
            now_min == h * 60 + m,
            k <= windows@.len(),
            forall|i: int| 0 <= i < k ==> !in_window(windows@[i], h * 60 + m),
        decreases windows@.len() - k,
    {
        let (fh, fm, th, tm) = windows[k];
        let start: u64 = (fh as u64) * 60 + (fm as u64);
        let end: u64 = (th as u64) * 60 + (tm as u64);
        if (start <= now_min && now_min < end) || (start <= now_min + 1440 && now_min + 1440
            < end) {
            return true;
        }
        k = k + 1;
    }
    false
}

/// Seconds to sleep from the current wall-clock time in the exchange's
/// timezone until the next window opens. Whatever the clock reads, the result
/// is the owed sleep for some in-range hour and minute.
pub fn sleep_duration_from_now(windows: &Vec<Window>) -> (r: u64)
    requires
        windows@.len() > 0,
        windows_wf(windows@),
    ensures
        exists|now_min: int|
            0 <= now_min < 1440 && r == #[trigger] spec_sleep_secs(windows@, 0, now_min),
{
    let (h, m) = crate::clock::moscow_hour_minute();
    let r = sleep_duration_secs(windows, h, m);
    proof {
        assert(0 <= h * 60 + m < 1440 && r == spec_sleep_secs(windows@, 0, h * 60 + m));
    }
    r
}

} // verus!
