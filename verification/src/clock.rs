//! Local wall-clock time as plain values. A point in local time is a day
//! number paired with an hour and a minute; session logic works on the total
//! count of minutes, so that "rolled to the next day" and "ten minutes
//! before" are ordinary arithmetic. Only the trusted wrapper at the bottom
//! touches the clock itself.

use vstd::prelude::*;
use vstd::string::StrSliceExecFns;

verus! {

/// Minutes in one calendar day.
pub const MINUTES_PER_DAY: i64 = 1440;

/// Bound on the day numbers the calendar library can represent (about
/// 262,000 years away from the common era's start).
pub const MAX_CLOCK_DAYS: i32 = 100_000_000;

/// Bound on the minutes of any reading the clock itself can produce:
/// `MAX_CLOCK_DAYS` whole days plus the minutes of one more day.
pub const MAX_CLOCK_MINUTES: i64 = 144_000_002_000;

/// Bound on any local time in minutes the library computes with: the clock's
/// own bound with headroom for times rolled past it.
pub const MAX_LOCAL_MINUTES: i64 = 200_000_000_000;

/// A reading of the local wall clock: the day number (days relative to the
/// start of the common era, as the calendar library counts them) and the time
/// of day.
#[derive(Clone, Copy, Debug, PartialEq, Eq, Structural)]
pub struct ClockReading {
    pub days: i32,
    pub hour: u32,
    pub minute: u32,
}

impl ClockReading {
    /// A reading the calendar library can produce: the day number in range
    /// and the time of day a real one.
    pub open spec fn wf(self) -> bool {
        &&& -MAX_CLOCK_DAYS <= self.days <= MAX_CLOCK_DAYS
        &&& self.hour < 24
        &&& self.minute < 60
    }

    /// The reading as a single count of local minutes.
    pub open spec fn as_minutes(self) -> int {
        self.days * (MINUTES_PER_DAY as int) + self.hour * 60 + self.minute
    }
}

/// True of every value that can stand for a local time in minutes.
pub open spec fn valid_minutes(t: int) -> bool {
    -MAX_LOCAL_MINUTES <= t <= MAX_LOCAL_MINUTES
}

/// Flattens a clock reading into its count of local minutes.
pub fn minutes_of(c: &ClockReading) -> (r: i64)
    requires
        c.wf(),
    ensures
        r == c.as_minutes(),
        -MAX_CLOCK_MINUTES <= r <= MAX_CLOCK_MINUTES,
{
    (c.days as i64) * MINUTES_PER_DAY + (c.hour as i64) * 60 + (c.minute as i64)
}

/// The current local time in minutes. Nothing more than its range can be
/// promised of a clock reading.
pub fn now_minutes() -> (r: i64)
    ensures
        -MAX_CLOCK_MINUTES <= r <= MAX_CLOCK_MINUTES,
        valid_minutes(r as int),
{
    let c = read_local_clock();
    minutes_of(&c)
}

/// True of a single decimal digit.
pub open spec fn is_digit(c: char) -> bool {
    '0' <= c && c <= '9'
}

/// The value of a decimal digit.
pub open spec fn digit_val(c: char) -> int {
    c as u32 - '0' as u32
}

/// A time of day written with one or two hour digits, a colon, and one or
/// two minute digits, naming an hour below 24 and a minute below 60.
pub open spec fn valid_hhmm(s: Seq<char>) -> bool {
    ||| (s.len() == 3 && is_digit(s[0]) && s[1] == ':' && is_digit(s[2]))
    ||| (s.len() == 4 && is_digit(s[0]) && s[1] == ':' && is_digit(s[2]) && is_digit(s[3])
        && 10 * digit_val(s[2]) + digit_val(s[3]) < 60)
    ||| (s.len() == 4 && is_digit(s[0]) && is_digit(s[1]) && s[2] == ':' && is_digit(s[3])
        && 10 * digit_val(s[0]) + digit_val(s[1]) < 24)
    ||| (s.len() == 5 && is_digit(s[0]) && is_digit(s[1]) && s[2] == ':' && is_digit(s[3])
        && is_digit(s[4]) && 10 * digit_val(s[0]) + digit_val(s[1]) < 24 && 10 * digit_val(s[3])
        + digit_val(s[4]) < 60)
}

/// The hour a well-formed time-of-day string names.
pub open spec fn hhmm_hour(s: Seq<char>) -> int {
    if s.len() >= 2 && s[1] == ':' {
        digit_val(s[0])
    } else {
        10 * digit_val(s[0]) + digit_val(s[1])
    }
}

/// The minute a well-formed time-of-day string names.
pub open spec fn hhmm_minute(s: Seq<char>) -> int {
    if s.len() >= 2 && s[1] == ':' {
        if s.len() == 3 {
            digit_val(s[2])
        } else {
            10 * digit_val(s[2]) + digit_val(s[3])
        }
    } else {
        if s.len() == 4 {
            digit_val(s[3])
        } else {
            10 * digit_val(s[3]) + digit_val(s[4])
        }
    }
}

fn digit_of(c: char) -> (r: Option<u32>)
    ensures
        r is Some <==> is_digit(c),
        r is Some ==> r->0 == digit_val(c) && r->0 < 10,
{
    if '0' <= c && c <= '9' {
        Some(c as u32 - '0' as u32)
    } else {
        None
    }
}

/// Reads a requested start time of day, written `H:M`, `H:MM`, `HH:M` or
/// `HH:MM`, and returns its hour and minute; any other string is refused.
pub fn parse_hhmm(s: &str) -> (r: Option<(u32, u32)>)
    ensures
        r is Some <==> valid_hhmm(s@),
        r is Some ==> r->0 == ((hhmm_hour(s@) as u32, hhmm_minute(s@) as u32)),
        r is Some ==> hhmm_hour(s@) < 24 && hhmm_minute(s@) < 60,
{
    let n = s.unicode_len();
    if n < 3 || n > 5 {
        return None;
    }
    let colon_at_one = s.get_char(1) == ':';
    if colon_at_one {
        let h = match digit_of(s.get_char(0)) {
            Some(h) => h,
            None => { return None; },
        };
        let m0 = match digit_of(s.get_char(2)) {
            Some(m) => m,
            None => { return None; },
        };
        if n == 3 {
            Some((h, m0))
        } else if n == 4 {
            let m1 = match digit_of(s.get_char(3)) {
                Some(m) => m,
                None => { return None; },
            };
            let m = 10 * m0 + m1;
            if m < 60 {
                Some((h, m))
            } else {
                None
            }
        } else {
            None
        }
    } else {
        if n == 3 {
            return None;
        }
        let h0 = match digit_of(s.get_char(0)) {
            Some(h) => h,
            None => { return None; },
        };
        let h1 = match digit_of(s.get_char(1)) {
            Some(h) => h,
            None => { return None; },
        };
        if s.get_char(2) != ':' {
            return None;
        }
        let h = 10 * h0 + h1;
        if h >= 24 {
            return None;
        }
        let m0 = match digit_of(s.get_char(3)) {
            Some(m) => m,
            None => { return None; },
        };
        if n == 4 {
            Some((h, m0))
        } else {
            let m1 = match digit_of(s.get_char(4)) {
                Some(m) => m,
                None => { return None; },
            };
            let m = 10 * m0 + m1;
            if m < 60 {
                Some((h, m))
            } else {
                None
            }
        }
    }
}

/// The start time a request names: today's occurrence of the requested time
/// of day, rolled forward to the next day when that occurrence is already in
/// the past.
pub open spec fn rolled_start(now: int, hour: int, minute: int) -> int {
    let day_start = now - mod_day(now);
    let today = day_start + hour * 60 + minute;
    if today < now {
        today + MINUTES_PER_DAY as int
    } else {
        today
    }
}

/// `t` reduced to its minute within the day (Euclidean remainder, so the
/// result is never negative).
pub open spec fn mod_day(t: int) -> int {
    t % (MINUTES_PER_DAY as int)
}

/// Computes the absolute start time, in local minutes, for a session
/// requested at time `now` for the time of day `hour:minute`: today's
/// occurrence, or the next day's when today's has already passed. The result
/// is never before `now` and never a full day or more after it.
pub fn compute_start_time(now: i64, hour: u32, minute: u32) -> (r: i64)
    requires
        0 <= now <= MAX_CLOCK_MINUTES,
        hour < 24,
        minute < 60,
    ensures
        r == rolled_start(now as int, hour as int, minute as int),
        now <= r < now + MINUTES_PER_DAY,
        mod_day(r as int) == hour * 60 + minute,
        valid_minutes(r as int),
{
    let day_start = now - now % MINUTES_PER_DAY;
    let today = day_start + (hour as i64) * 60 + (minute as i64);
    if today < now {
        today + MINUTES_PER_DAY
    } else {
        today
    }
}

/// Relies on `chrono::Local::now` for the current local date and time, and on
/// `chrono`'s `Datelike::num_days_from_ce`, `Timelike::hour` and
/// `Timelike::minute` accessors: the day number stays within the calendar's
/// documented range and the time of day is a real one. Nothing else can be
/// promised of a clock.
#[verifier::external_body]
fn read_local_clock() -> (r: ClockReading)
    ensures
        r.wf(),
{
    let now = chrono::Local::now().naive_local();
    ClockReading {
        days: chrono::Datelike::num_days_from_ce(&now),
        hour: chrono::Timelike::hour(&now),
        minute: chrono::Timelike::minute(&now),
    }
}

} // verus!
