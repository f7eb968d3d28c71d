use session_bot::clock::{
    compute_start_time, minutes_of, now_minutes, parse_hhmm, ClockReading, MAX_CLOCK_MINUTES,
    MINUTES_PER_DAY,
};

#[test]
fn parses_padded_time() {
    assert_eq!(parse_hhmm("20:00"), Some((20, 0)));
    assert_eq!(parse_hhmm("08:30"), Some((8, 30)));
    assert_eq!(parse_hhmm("00:00"), Some((0, 0)));
    assert_eq!(parse_hhmm("23:59"), Some((23, 59)));
}

#[test]
fn parses_short_forms() {
    assert_eq!(parse_hhmm("8:30"), Some((8, 30)));
    assert_eq!(parse_hhmm("8:5"), Some((8, 5)));
    assert_eq!(parse_hhmm("12:5"), Some((12, 5)));
    assert_eq!(parse_hhmm("9:00"), Some((9, 0)));
}

#[test]
fn rejects_out_of_range_times() {
    assert_eq!(parse_hhmm("24:00"), None);
    assert_eq!(parse_hhmm("25:10"), None);
    assert_eq!(parse_hhmm("12:60"), None);
    assert_eq!(parse_hhmm("99:99"), None);
}

#[test]
fn rejects_malformed_times() {
    assert_eq!(parse_hhmm(""), None);
    assert_eq!(parse_hhmm("1200"), None);
    assert_eq!(parse_hhmm("ab:cd"), None);
    assert_eq!(parse_hhmm("12:"), None);
    assert_eq!(parse_hhmm(":30"), None);
    assert_eq!(parse_hhmm("12:345"), None);
    assert_eq!(parse_hhmm("1:2:3"), None);
}

#[test]
fn start_stays_today_when_still_ahead() {
    // 19:00 on some day, asking for 20:00: today's 20:00.
    let day: i64 = 738000;
    let now = day * MINUTES_PER_DAY + 19 * 60;
    let start = compute_start_time(now, 20, 0);
    assert_eq!(start, day * MINUTES_PER_DAY + 20 * 60);
}

#[test]
fn start_rolls_to_next_day_when_past() {
    // 23:00, asking for 08:00: the next day's 08:00, not today's.
    let day: i64 = 738000;
    let now = day * MINUTES_PER_DAY + 23 * 60;
    let start = compute_start_time(now, 8, 0);
    assert_eq!(start, (day + 1) * MINUTES_PER_DAY + 8 * 60);
}

#[test]
fn start_at_the_requested_minute_stays_today() {
    let day: i64 = 738000;
    let now = day * MINUTES_PER_DAY + 8 * 60;
    let start = compute_start_time(now, 8, 0);
    assert_eq!(start, now);
}

#[test]
fn clock_reading_flattens_to_minutes() {
    let c = ClockReading { days: 2, hour: 1, minute: 30 };
    assert_eq!(minutes_of(&c), 2 * MINUTES_PER_DAY + 90);
}

#[test]
fn now_is_within_the_clock_bound() {
    let now = now_minutes();
    assert!(now >= -MAX_CLOCK_MINUTES && now <= MAX_CLOCK_MINUTES);
}
