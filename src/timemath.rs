use chrono::Timelike;
use vstd::prelude::*;

verus! {

/// The daily quota of worked minutes (eight hours).
pub const TARGET_MINUTES: u32 = 480;

/// A wall-clock time of day with minute precision.
#[derive(Clone, Copy, Debug, PartialEq, Eq, Structural)]
pub struct TimeOfDay {
    pub hour: u32,
    pub minute: u32,
}

impl TimeOfDay {
    /// A valid 24-hour time.
    pub open spec fn wf(self) -> bool {
        self.hour < 24 && self.minute < 60
    }

    /// Minutes elapsed since midnight.
    pub open spec fn minutes(self) -> int {
        self.hour * 60 + self.minute
    }

    pub fn new(hour: u32, minute: u32) -> (r: Option<TimeOfDay>)
        ensures
            r is Some <==> hour < 24 && minute < 60,
            r matches Some(t) ==> t.hour == hour && t.minute == minute,
    {
        if hour < 24 && minute < 60 {
            Some(TimeOfDay { hour, minute })
        } else {
            None
        }
    }

    pub fn minute_of_day(&self) -> (r: i64)
        requires
            self.wf(),
        ensures
            r == self.minutes(),
    {
        (self.hour * 60 + self.minute) as i64
    }
}

/// What `NaiveTime::parse_from_str(s, "%H:%M")` yields, as (hour, minute).
pub uninterp spec fn hhmm_parse(s: Seq<char>) -> Option<(u32, u32)>;

/// Relies on chrono's `NaiveTime::parse_from_str` with the format `%H:%M`:
/// the result depends on the text alone, and a parsed time has an hour
/// below 24 and a minute below 60.
#[verifier::external_body]
fn parse_hhmm(s: &str) -> (r: Option<(u32, u32)>)
    ensures
        r == hhmm_parse(s@),
        r matches Some(p) ==> p.0 < 24 && p.1 < 60,
{
    chrono::NaiveTime::parse_from_str(s, "%H:%M").ok().map(|t| (t.hour(), t.minute()))
}

/// The time of day that the text denotes, if it is a valid `HH:MM` time.
pub open spec fn time_of_day_of(s: Seq<char>) -> Option<TimeOfDay> {
    match hhmm_parse(s) {
        Some(p) => Some(TimeOfDay { hour: p.0, minute: p.1 }),
        None => None,
    }
}

/// Reads a 24-hour `HH:MM` time of day.
pub fn parse_time_of_day(s: &str) -> (r: Option<TimeOfDay>)
    ensures
        r == time_of_day_of(s@),
        r matches Some(t) ==> t.wf(),
{
    match parse_hhmm(s) {
        Some(p) => Some(TimeOfDay { hour: p.0, minute: p.1 }),
        None => None,
    }
}

/// The decimal digit `d` (below ten) as a character.
pub open spec fn digit_char(d: int) -> char {
    if d == 0 { '0' }
    else if d == 1 { '1' }
    else if d == 2 { '2' }
    else if d == 3 { '3' }
    else if d == 4 { '4' }
    else if d == 5 { '5' }
    else if d == 6 { '6' }
    else if d == 7 { '7' }
    else if d == 8 { '8' }
    else { '9' }
}

/// A value below one hundred written with two digits.
pub open spec fn two_digits(n: int) -> Seq<char> {
    seq![digit_char(n / 10), digit_char(n % 10)]
}

/// The `HH:MM` text of a valid time of day.
pub open spec fn hhmm_text(hour: int, minute: int) -> Seq<char> {
    two_digits(hour) + seq![':'] + two_digits(minute)
}

/// Relies on chrono's `NaiveTime::format` with `%H:%M`: hour and minute,
/// each zero-padded to two digits, joined by a colon.
#[verifier::external_body]
fn format_hhmm(hour: u32, minute: u32) -> (r: String)
    requires
        hour < 24,
        minute < 60,
    ensures
        r@ == hhmm_text(hour as int, minute as int),
{
    chrono::NaiveTime::from_hms_opt(hour, minute, 0).unwrap().format("%H:%M").to_string()
}

/// The time of day at which a minute offset from midnight falls, wrapping
/// around across days in either direction.
pub open spec fn wall_clock_of(minute: int) -> TimeOfDay {
    let m = minute % 1440;
    TimeOfDay { hour: (m / 60) as u32, minute: (m % 60) as u32 }
}

/// The `HH:MM` text of the time of day at a minute offset from midnight.
pub fn wall_clock_text(minute: i64) -> (r: String)
    ensures
        r@ == hhmm_text(wall_clock_of(minute as int).hour as int, wall_clock_of(minute as int).minute as int),
{
    let mut m: i64 = minute % 1440;
    if m < 0 {
        m = m + 1440;
    }
    assert(m as int == (minute as int) % 1440);
    let hour = (m / 60) as u32;
    let min = (m % 60) as u32;
    format_hhmm(hour, min)
}

/// The plan of a work day: what the first period covered, what is left of the
/// quota after it, and the minute (counted from the day's midnight) at which
/// the quota is reached when work resumes at the second start.
#[derive(Clone, Copy, Debug, PartialEq, Eq, Structural)]
pub struct SessionPlan {
    pub period1_minutes: i64,
    pub remaining_minutes: i64,
    pub end_minute: i64,
}

/// Minute of the day at which the quota is reached; neither the first
/// period nor what is left of the quota is clamped.
pub open spec fn plan_end_minute(start1: TimeOfDay, end1: TimeOfDay, start2: TimeOfDay, target: int) -> int {
    start2.minutes() + (target - (end1.minutes() - start1.minutes()))
}

/// Computes the plan of a day from the two period boundaries and the quota.
pub fn compute_session_plan(start1: TimeOfDay, end1: TimeOfDay, start2: TimeOfDay, target_minutes: u32) -> (r: SessionPlan)
    requires
        start1.wf(),
        end1.wf(),
        start2.wf(),
    ensures
        r.period1_minutes == end1.minutes() - start1.minutes(),
        r.remaining_minutes == target_minutes - r.period1_minutes,
        r.end_minute == start2.minutes() + r.remaining_minutes,
        r.end_minute == plan_end_minute(start1, end1, start2, target_minutes as int),
{
    let period1_minutes = end1.minute_of_day() - start1.minute_of_day();
    let remaining_minutes = target_minutes as i64 - period1_minutes;
    let end_minute = start2.minute_of_day() + remaining_minutes;
    SessionPlan { period1_minutes, remaining_minutes, end_minute }
}

} // verus!
