use noponto::monitor::{
    day_start_of, plan_session, update_status, ParseError, SessionMonitor, TickAction, TimeField, WorkStatus,
};
use noponto::timemath::{compute_session_plan, parse_time_of_day, wall_clock_text, TimeOfDay, TARGET_MINUTES};

fn t(h: u32, m: u32) -> TimeOfDay {
    TimeOfDay::new(h, m).unwrap()
}

#[test]
fn parses_valid_times() {
    assert_eq!(parse_time_of_day("08:00"), Some(t(8, 0)));
    assert_eq!(parse_time_of_day("23:59"), Some(t(23, 59)));
    assert_eq!(parse_time_of_day("00:00"), Some(t(0, 0)));
}

#[test]
fn rejects_invalid_times() {
    assert_eq!(parse_time_of_day("25:99"), None);
    assert_eq!(parse_time_of_day("24:00"), None);
    assert_eq!(parse_time_of_day("12:60"), None);
    assert_eq!(parse_time_of_day("noon"), None);
    assert_eq!(parse_time_of_day(""), None);
}

#[test]
fn time_of_day_new_checks_range() {
    assert!(TimeOfDay::new(23, 59).is_some());
    assert!(TimeOfDay::new(24, 0).is_none());
    assert!(TimeOfDay::new(0, 60).is_none());
    assert_eq!(t(13, 5).minute_of_day(), 785);
}

#[test]
fn plan_of_a_regular_day() {
    let plan = compute_session_plan(t(8, 0), t(12, 0), t(13, 0), TARGET_MINUTES);
    assert_eq!(plan.period1_minutes, 240);
    assert_eq!(plan.remaining_minutes, 240);
    assert_eq!(plan.end_minute, 17 * 60);
    assert_eq!(wall_clock_text(plan.end_minute), "17:00");
}

#[test]
fn plan_formula_holds_on_uneven_periods() {
    let plan = compute_session_plan(t(7, 45), t(11, 20), t(12, 35), TARGET_MINUTES);
    assert_eq!(plan.period1_minutes, 215);
    assert_eq!(plan.remaining_minutes, 265);
    assert_eq!(plan.end_minute, 12 * 60 + 35 + 265);
    assert_eq!(wall_clock_text(plan.end_minute), "17:00");
}

#[test]
fn overtime_is_not_clamped() {
    let plan = compute_session_plan(t(6, 0), t(15, 0), t(16, 0), TARGET_MINUTES);
    assert_eq!(plan.period1_minutes, 540);
    assert_eq!(plan.remaining_minutes, -60);
    assert_eq!(plan.end_minute, 15 * 60);
}

#[test]
fn reversed_first_period_is_passed_through() {
    let plan = compute_session_plan(t(12, 0), t(8, 0), t(13, 0), TARGET_MINUTES);
    assert_eq!(plan.period1_minutes, -240);
    assert_eq!(plan.remaining_minutes, 720);
    assert_eq!(plan.end_minute, 25 * 60);
    assert_eq!(wall_clock_text(plan.end_minute), "01:00");
}

#[test]
fn wall_clock_wraps_both_ways() {
    assert_eq!(wall_clock_text(0), "00:00");
    assert_eq!(wall_clock_text(-60), "23:00");
    assert_eq!(wall_clock_text(1439), "23:59");
    assert_eq!(wall_clock_text(1440 + 65), "01:05");
    assert_eq!(wall_clock_text(9 * 60 + 7), "09:07");
}

#[test]
fn session_start_example() {
    let (m, w) = plan_session("08:00", "12:00", "13:00", 0).unwrap();
    assert_eq!(w.end_time, "17:00");
    assert_eq!(w.remaining_minutes, 240);
    assert!(!w.is_complete);
    assert_eq!(m.end_minute, 1020);
    assert_eq!(m.day_start_ms, 0);
    assert!(!m.finished);
}

#[test]
fn malformed_start_is_a_parse_error() {
    let mut slot: Option<WorkStatus> = None;
    match plan_session("25:99", "12:00", "13:00", 0) {
        Ok((_, w)) => slot = Some(w),
        Err(e) => assert_eq!(e, ParseError { field: TimeField::Start1 }),
    }
    assert!(slot.is_none());
}

#[test]
fn parse_errors_name_the_first_bad_field() {
    assert_eq!(plan_session("08:00", "1200", "13:00", 0).unwrap_err().field, TimeField::End1);
    assert_eq!(plan_session("08:00", "12:00", "x", 0).unwrap_err().field, TimeField::Start2);
    assert_eq!(plan_session("x", "y", "z", 0).unwrap_err().field, TimeField::Start1);
}

fn status() -> Option<WorkStatus> {
    Some(WorkStatus { remaining_minutes: 5, is_complete: false, end_time: "17:00".to_string() })
}

#[test]
fn monitor_polls_each_minute_to_completion() {
    let start: i64 = 1_000_000;
    let mut m = SessionMonitor { day_start_ms: start, end_minute: 5, finished: false };
    let mut s = status();
    let mut actions = Vec::new();
    let mut k: i64 = 0;
    while !m.finished {
        actions.push(m.tick(&mut s, start + k * 60_000));
        k += 1;
    }
    assert_eq!(
        actions,
        vec![
            TickAction::Wait,
            TickAction::Wait,
            TickAction::Warn { remaining_minutes: 3 },
            TickAction::Warn { remaining_minutes: 2 },
            TickAction::Warn { remaining_minutes: 1 },
            TickAction::Complete,
        ]
    );
    let w = s.unwrap();
    assert!(w.is_complete);
    assert_eq!(w.remaining_minutes, 0);
    assert_eq!(w.end_time, "17:00");
}

#[test]
fn monitor_truncates_toward_zero() {
    let m = SessionMonitor { day_start_ms: 0, end_minute: 10, finished: false };
    assert_eq!(m.remaining_at(0), 10);
    assert_eq!(m.remaining_at(1), 9);
    assert_eq!(m.remaining_at(599_999), 0);
    assert_eq!(m.remaining_at(600_000), 0);
    assert_eq!(m.remaining_at(659_999), 0);
    assert_eq!(m.remaining_at(660_000), -1);
}

#[test]
fn late_start_completes_at_once() {
    let mut m = SessionMonitor { day_start_ms: 0, end_minute: -30, finished: false };
    let mut s = status();
    assert_eq!(m.tick(&mut s, 0), TickAction::Complete);
    assert!(m.finished);
    let w = s.unwrap();
    assert_eq!(w.remaining_minutes, 0);
    assert!(w.is_complete);
}

#[test]
fn tick_updates_status_count() {
    let mut m = SessionMonitor { day_start_ms: 0, end_minute: 120, finished: false };
    let mut s = status();
    assert_eq!(m.tick(&mut s, 30 * 60_000), TickAction::Wait);
    assert_eq!(s.as_ref().unwrap().remaining_minutes, 90);
    assert!(!s.as_ref().unwrap().is_complete);
    assert!(!m.finished);
}

#[test]
fn status_update_without_session_stays_empty() {
    let mut s: Option<WorkStatus> = None;
    update_status(&mut s, 3);
    assert!(s.is_none());
    let mut s = status();
    update_status(&mut s, -7);
    assert_eq!(s.as_ref().unwrap().remaining_minutes, 0);
    assert!(s.as_ref().unwrap().is_complete);
}

#[test]
fn session_on_current_day() {
    let (m, w) = noponto::monitor::start_session("08:00", "12:00", "13:00").unwrap();
    assert_eq!(w.end_time, "17:00");
    assert_eq!(m.end_minute, 1020);
    assert_eq!(m.day_start_ms % 86_400_000, 0);
    assert!(noponto::monitor::start_session("25:99", "12:00", "13:00").is_err());
}

#[test]
fn day_start_is_local_midnight() {
    assert_eq!(day_start_of(0), 0);
    assert_eq!(day_start_of(86_400_000 + 5), 86_400_000);
    assert_eq!(day_start_of(-1), -86_400_000);
}
