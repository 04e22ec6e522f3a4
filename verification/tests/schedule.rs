use tradebot::schedule::{is_open, shift_windows, sleep_duration_from_now, sleep_duration_secs};

#[test]
fn startup_shift_moves_boundaries_back() {
    let configured = vec![(10, 0, 18, 40)];
    let shifted = shift_windows(&configured);
    assert_eq!(shifted, vec![(9, 59, 18, 39)]);
}

#[test]
fn startup_shift_wraps_at_midnight() {
    let configured = vec![(0, 0, 23, 0)];
    let shifted = shift_windows(&configured);
    assert_eq!(shifted, vec![(23, 59, 22, 59)]);
}

#[test]
fn startup_shift_reads_small_end_hour_as_overnight() {
    let configured = vec![(22, 30, 2, 0)];
    let shifted = shift_windows(&configured);
    assert_eq!(shifted, vec![(22, 29, 25, 59)]);
}

#[test]
fn sleep_until_next_open_is_59_minutes_at_nine() {
    let windows = shift_windows(&vec![(10, 0, 18, 40)]);
    // At 09:00 the shifted window (9,59,18,39) opens in 59 minutes.
    assert_eq!(sleep_duration_secs(&windows, 9, 0), 59 * 60);
}

#[test]
fn sleep_wraps_to_tomorrow_after_last_window() {
    let windows = shift_windows(&vec![(10, 0, 18, 40)]);
    // At 20:00 nothing is left today: sleep to 9:59 tomorrow, less the
    // scheduler's fixed offset of one minute short of a full day.
    let secs = sleep_duration_secs(&windows, 20, 0);
    assert_eq!(secs, ((9 + 23 - 20) * 3600 + (59 + 59 - 0) * 60) as u64);
}

#[test]
fn openness_follows_the_window() {
    let windows = shift_windows(&vec![(10, 0, 18, 40)]);
    assert!(!is_open(&windows, 9, 0));
    assert!(is_open(&windows, 9, 59));
    assert!(is_open(&windows, 12, 0));
    assert!(!is_open(&windows, 18, 39));
    assert!(!is_open(&windows, 23, 0));
}

#[test]
fn sleep_from_wall_clock_is_whole_minutes() {
    // Whatever the clock reads, the owed sleep is a whole number of minutes
    // and bounded by the wrap-around to tomorrow's window.
    let windows = shift_windows(&vec![(10, 0, 18, 40)]);
    let secs = sleep_duration_from_now(&windows);
    assert_eq!(secs % 60, 0);
    assert!(secs <= 48 * 3600);
}

#[test]
fn no_windows_means_never_open() {
    let windows: Vec<(u32, u32, u32, u32)> = Vec::new();
    assert!(!is_open(&windows, 12, 0));
}

#[test]
fn overnight_window_covers_small_hours() {
    let windows = vec![(22, 0, 26, 0)];
    assert!(is_open(&windows, 23, 30));
    assert!(is_open(&windows, 1, 30));
    assert!(!is_open(&windows, 3, 0));
}
