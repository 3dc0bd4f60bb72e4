use vstd::prelude::*;
use crate::timemath::{
    compute_session_plan, parse_time_of_day, plan_end_minute, time_of_day_of, wall_clock_of,
    wall_clock_text, hhmm_text, TimeOfDay, TARGET_MINUTES,
};

verus! {

pub const MS_PER_MINUTE: i128 = 60000;
pub const MS_PER_DAY: i64 = 86400000;

/// Remaining minutes at or below which an "almost done" alert is raised.
pub const WARNING_MINUTES: i64 = 3;

/// The progress of the active session, as status readers see it.
#[derive(Clone, Debug)]
pub struct WorkStatus {
    pub remaining_minutes: i64,
    pub is_complete: bool,
    pub end_time: String,
}

/// Which of the three time-of-day inputs of a session was not a valid time.
#[derive(Clone, Copy, Debug, PartialEq, Eq, Structural)]
pub enum TimeField {
    Start1,
    End1,
    Start2,
}

/// A session was not started because one of its times was not `HH:MM`.
#[derive(Clone, Copy, Debug, PartialEq, Eq, Structural)]
pub struct ParseError {
    pub field: TimeField,
}

/// What the monitor asks its host to do after a poll.
#[derive(Clone, Copy, Debug, PartialEq, Eq, Structural)]
pub enum TickAction {
    /// Nothing to report; poll again after the interval.
    Wait,
    /// The quota is nearly reached: alert with the remaining minutes and poll again.
    Warn { remaining_minutes: i64 },
    /// The quota is reached: alert, signal completion and stop polling.
    Complete,
}

/// The background monitor of one session: it owns the instant at which the
/// quota is reached, as local milliseconds, split into the day's midnight and
/// a minute offset from it.
#[derive(Clone, Copy, Debug)]
pub struct SessionMonitor {
    pub day_start_ms: i64,
    pub end_minute: i64,
    pub finished: bool,
}

/// Whole minutes from `now` to `end` (milliseconds), truncated toward zero.
pub open spec fn minutes_until(end: int, now: int) -> int {
    let d = end - now;
    if d >= 0 { d / 60000 } else { -((-d) / 60000) }
}

/// The status after a poll that found `remaining` minutes left: the count is
/// clamped at zero and the end time is kept; with no status there is nothing
/// to update.
pub open spec fn status_after(s: Option<WorkStatus>, remaining: int) -> Option<WorkStatus> {
    match s {
        Some(w) => Some(WorkStatus {
            remaining_minutes: if remaining > 0 { remaining as i64 } else { 0 },
            is_complete: remaining <= 0,
            end_time: w.end_time,
        }),
        None => None,
    }
}

/// The action due when `remaining` minutes are left.
pub open spec fn action_for(remaining: int) -> TickAction {
    if remaining <= 0 {
        TickAction::Complete
    } else if remaining <= 3 {
        TickAction::Warn { remaining_minutes: remaining as i64 }
    } else {
        TickAction::Wait
    }
}

impl SessionMonitor {
    /// The instant, in local milliseconds, at which the quota is reached.
    pub open spec fn end_instant(self) -> int {
        self.day_start_ms + self.end_minute * 60000
    }

    /// The quota's end lies within a few days of the session's midnight.
    pub open spec fn wf(self) -> bool {
        -1440 <= self.end_minute <= 4320
    }

    /// Whole minutes left at `now_ms`.
    pub fn remaining_at(&self, now_ms: i64) -> (r: i64)
        requires
            self.wf(),
        ensures
            r == minutes_until(self.end_instant(), now_ms as int),
    {
        let offset: i128 = (self.end_minute as i128) * MS_PER_MINUTE;
        assert(-86400000 <= offset <= 259200000) by (nonlinear_arith)
            requires
                offset == self.end_minute * 60000,
                -1440 <= self.end_minute <= 4320;
        let end: i128 = self.day_start_ms as i128 + offset;
        let d: i128 = end - now_ms as i128;
        assert(d == self.end_instant() - now_ms);
        if d >= 0 {
            let q: i128 = d / MS_PER_MINUTE;
            assert(q <= d);
            q as i64
        } else {
            let q: i128 = (-d) / MS_PER_MINUTE;
            assert(q <= -d);
            -(q as i64)
        }
    }

    /// One poll at `now_ms`: publishes the new status and says what to do.
    /// After `Complete` the monitor is finished and takes no more polls.
    pub fn tick(&mut self, status: &mut Option<WorkStatus>, now_ms: i64) -> (a: TickAction)
        requires
            old(self).wf(),
            !old(self).finished,
        ensures
            final(self).wf(),
            ({
                let rem = minutes_until(old(self).end_instant(), now_ms as int);
                &&& *final(status) == status_after(*old(status), rem)
                &&& a == action_for(rem)
                &&& final(self).finished <==> rem <= 0
            }),
            final(self).day_start_ms == old(self).day_start_ms,
            final(self).end_minute == old(self).end_minute,
    {
        let remaining = self.remaining_at(now_ms);
        update_status(status, remaining);
        if remaining <= 0 {
            self.finished = true;
            TickAction::Complete
        } else if remaining <= WARNING_MINUTES {
            TickAction::Warn { remaining_minutes: remaining }
        } else {
            TickAction::Wait
        }
    }
}

impl SessionMonitor {
    /// One poll at the current local time.
    pub fn poll(&mut self, status: &mut Option<WorkStatus>) -> (a: TickAction)
        requires
            old(self).wf(),
            !old(self).finished,
        ensures
            final(self).wf(),
            final(self).day_start_ms == old(self).day_start_ms,
            final(self).end_minute == old(self).end_minute,
            exists|now: int| {
                let rem = #[trigger] minutes_until(old(self).end_instant(), now);
                &&& *final(status) == status_after(*old(status), rem)
                &&& a == action_for(rem)
                &&& final(self).finished <==> rem <= 0
            },
    {
        let now = local_now_ms();
        self.tick(status, now)
    }
}

/// Relies on chrono's `Local::now()`, read as a local calendar date and time
/// and counted in milliseconds from 1970-01-01 00:00 of that calendar
/// (`naive_local().and_utc().timestamp_millis()`). The value depends on the
/// clock; chrono's dates lie within the years -262144 to 262142, which keeps
/// it below 2^53 in magnitude.
#[verifier::external_body]
fn local_now_ms() -> (r: i64)
    ensures
        -0x20000000000000 < r < 0x20000000000000,
{
    chrono::Local::now().naive_local().and_utc().timestamp_millis()
}

/// Local midnight, in milliseconds, of the day that holds `now_ms`.
pub fn day_start_of(now_ms: i64) -> (r: i64)
    requires
        -0x20000000000000 < now_ms < 0x20000000000000,
    ensures
        r == now_ms - now_ms % 86400000,
{
    let mut rem: i64 = now_ms % MS_PER_DAY;
    if rem < 0 {
        rem = rem + MS_PER_DAY;
    }
    assert(rem as int == now_ms % 86400000);
    now_ms - rem
}

/// Starts a session on the current local day (see `plan_session`).
pub fn start_session(start1: &str, end1: &str, start2: &str) -> (r: Result<(SessionMonitor, WorkStatus), ParseError>)
    ensures
        exists|day_start: int| #[trigger] session_outcome(start1@, end1@, start2@, day_start, r),
{
    let day_start = day_start_of(local_now_ms());
    let r = plan_session(start1, end1, start2, day_start);
    assert(session_outcome(start1@, end1@, start2@, day_start as int, r));
    r
}

/// What `plan_session` returns on the day that begins at `day_start`.
pub open spec fn session_outcome(
    start1: Seq<char>,
    end1: Seq<char>,
    start2: Seq<char>,
    day_start: int,
    r: Result<(SessionMonitor, WorkStatus), ParseError>,
) -> bool {
    &&& time_of_day_of(start1) is None <==> r == Err::<(SessionMonitor, WorkStatus), ParseError>(ParseError { field: TimeField::Start1 })
    &&& time_of_day_of(start1) is Some && time_of_day_of(end1) is None
        <==> r == Err::<(SessionMonitor, WorkStatus), ParseError>(ParseError { field: TimeField::End1 })
    &&& time_of_day_of(start1) is Some && time_of_day_of(end1) is Some && time_of_day_of(start2) is None
        <==> r == Err::<(SessionMonitor, WorkStatus), ParseError>(ParseError { field: TimeField::Start2 })
    &&& r matches Ok((m, w)) ==> {
        let s1 = time_of_day_of(start1)->0;
        let e1 = time_of_day_of(end1)->0;
        let s2 = time_of_day_of(start2)->0;
        &&& m.day_start_ms == day_start
        &&& m.end_minute == plan_end_minute(s1, e1, s2, 480)
        &&& !m.finished
        &&& m.wf()
        &&& w.end_time@ == initial_status_of(s1, e1, s2).0
        &&& w.remaining_minutes == initial_status_of(s1, e1, s2).1
        &&& !w.is_complete
    }
}

/// A monitor polled once a minute, whose quota ends `n` minutes after its
/// first poll, finds `n - k` minutes left at poll `k` (counting from zero):
/// it waits while more than three minutes are left, warns at each poll that
/// finds one to three, and completes, with a status of zero minutes left and
/// complete, at the first poll that finds none.
pub proof fn lemma_polls_each_minute(first: int, n: int, k: int, w: WorkStatus)
    requires
        k >= 0,
    ensures
        minutes_until(first + n * 60000, first + k * 60000) == n - k,
        k >= n ==> action_for(n - k) == TickAction::Complete,
        n - 3 <= k < n ==> action_for(n - k) == (TickAction::Warn { remaining_minutes: (n - k) as i64 }),
        k < n - 3 ==> action_for(n - k) == TickAction::Wait,
        k >= n ==> (status_after(Some(w), n - k) matches Some(v) && v.remaining_minutes == 0 && v.is_complete),
{
    let d = (first + n * 60000) - (first + k * 60000);
    assert(d == (n - k) * 60000) by (nonlinear_arith)
        requires d == (first + n * 60000) - (first + k * 60000);
    if n - k >= 0 {
        assert(d / 60000 == n - k) by (nonlinear_arith)
            requires d == (n - k) * 60000, n - k >= 0;
    } else {
        assert((-d) / 60000 == k - n) by (nonlinear_arith)
            requires -d == (k - n) * 60000, k - n > 0;
    }
}

/// Writes the result of a poll into the shared status slot.
pub fn update_status(status: &mut Option<WorkStatus>, remaining: i64)
    ensures
        *final(status) == status_after(*old(status), remaining as int),
{
    match status {
        Some(w) => {
            w.remaining_minutes = if remaining > 0 { remaining } else { 0 };
            w.is_complete = remaining <= 0;
        },
        None => {},
    }
}

/// The status published when a session starts: what is left of the quota
/// after the first period (unclamped), and the end time as `HH:MM`.
pub open spec fn initial_status_of(start1: TimeOfDay, end1: TimeOfDay, start2: TimeOfDay) -> (Seq<char>, int) {
    let e = wall_clock_of(plan_end_minute(start1, end1, start2, 480));
    (hhmm_text(e.hour as int, e.minute as int), 480 - (end1.minutes() - start1.minutes()))
}

/// Starts a session on the day that begins at `day_start_ms` (local
/// milliseconds): parses the three `HH:MM` times, in order, and on success
/// returns the monitor and the first status.
pub fn plan_session(start1: &str, end1: &str, start2: &str, day_start_ms: i64) -> (r: Result<(SessionMonitor, WorkStatus), ParseError>)
    ensures
        session_outcome(start1@, end1@, start2@, day_start_ms as int, r),
{
    let s1 = match parse_time_of_day(start1) {
        Some(t) => t,
        None => { return Err(ParseError { field: TimeField::Start1 }); },
    };
    let e1 = match parse_time_of_day(end1) {
        Some(t) => t,
        None => { return Err(ParseError { field: TimeField::End1 }); },
    };
    let s2 = match parse_time_of_day(start2) {
        Some(t) => t,
        None => { return Err(ParseError { field: TimeField::Start2 }); },
    };
    let plan = compute_session_plan(s1, e1, s2, TARGET_MINUTES);
    let end_time = wall_clock_text(plan.end_minute);
    let monitor = SessionMonitor { day_start_ms, end_minute: plan.end_minute, finished: false };
    let status = WorkStatus { remaining_minutes: plan.remaining_minutes, is_complete: false, end_time };
    Ok((monitor, status))
}

} // verus!
