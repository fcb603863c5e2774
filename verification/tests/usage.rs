use badkat::config::{Config, PatrolScheduleConfig, Weekday};
use badkat::storage::{load_json, FileRead};
use badkat::usage::{civil_time, load, schedule_active, CivilTime, DailyUsage, UsageState, UsageTracker};

const SECOND: u64 = 1_000_000_000;

fn civil(weekday: Weekday, hour: u16, minute: u16, day: u16) -> CivilTime {
    CivilTime {
        year: 2026,
        month: 9,
        day,
        weekday,
        minute: hour * 60 + minute,
    }
}

fn start() -> u64 {
    1_000 * SECOND
}

#[test]
fn overnight_schedule_uses_the_previous_selected_day() {
    let schedule = PatrolScheduleConfig {
        enabled: true,
        weekdays: vec![Weekday::Mon],
        start: "22:00".into(),
        end: "06:00".into(),
    };
    assert!(schedule_active(&schedule, civil(Weekday::Mon, 23, 0, 21)));
    assert!(schedule_active(&schedule, civil(Weekday::Tue, 2, 0, 22)));
    assert!(!schedule_active(&schedule, civil(Weekday::Tue, 23, 0, 22)));
}

#[test]
fn equal_schedule_times_mean_all_day() {
    let schedule = PatrolScheduleConfig {
        enabled: true,
        weekdays: vec![Weekday::Wed],
        start: "09:00".into(),
        end: "09:00".into(),
    };
    assert!(schedule_active(&schedule, civil(Weekday::Wed, 2, 0, 23)));
    assert!(!schedule_active(&schedule, civil(Weekday::Thu, 2, 0, 24)));
}

#[test]
fn allowance_crossing_starts_enforcement_at_the_boundary() {
    let mut cfg = Config::default();
    cfg.daily_allowance.enabled = true;
    cfg.daily_allowance.minutes = 10;
    let start = start();
    let record = DailyUsage {
        version: 1,
        local_date: "2026-09-20".into(),
        used_seconds: 599,
    };
    let mut tracker = UsageTracker::new(record, start);
    tracker.tick(&cfg, civil(Weekday::Sun, 12, 0, 20), start, true);
    let decision = tracker.tick(&cfg, civil(Weekday::Sun, 12, 0, 20), start + SECOND, true);
    assert!(decision.enforcement_allowed);
    assert_eq!(
        tracker.status(&cfg, civil(Weekday::Sun, 12, 0, 20)).state,
        UsageState::Exhausted
    );
}

#[test]
fn date_change_resets_usage_without_negative_elapsed_time() {
    let mut cfg = Config::default();
    cfg.daily_allowance.enabled = true;
    let start = start();
    let record = DailyUsage {
        version: 1,
        local_date: "2026-09-20".into(),
        used_seconds: 500,
    };
    let mut tracker = UsageTracker::new(record, start);
    tracker.tick(&cfg, civil(Weekday::Mon, 0, 0, 21), start, true);
    let status = tracker.status(&cfg, civil(Weekday::Mon, 0, 0, 21));
    assert_eq!(status.used_seconds, 0);
    assert_eq!(status.local_date, "2026-09-21");
}

#[test]
fn date_change_does_not_charge_the_previous_days_sample() {
    let mut cfg = Config::default();
    cfg.daily_allowance.enabled = true;
    let start = start();
    let record = DailyUsage {
        version: 1,
        local_date: "2026-09-20".into(),
        used_seconds: 500,
    };
    let mut tracker = UsageTracker::new(record, start);
    tracker.tick(&cfg, civil(Weekday::Mon, 0, 0, 21), start + 5 * SECOND, true);
    assert_eq!(tracker.record().used_seconds, 0);
}

#[test]
fn clock_rollback_never_subtracts_usage() {
    let mut cfg = Config::default();
    cfg.daily_allowance.enabled = true;
    let start = start();
    let record = DailyUsage {
        version: 1,
        local_date: "2026-09-20".into(),
        used_seconds: 25,
    };
    let mut tracker = UsageTracker::new(record, start);
    tracker.tick(&cfg, civil(Weekday::Sun, 12, 0, 20), start - SECOND, true);
    assert_eq!(tracker.record().used_seconds, 25);
}

#[test]
fn an_unmatched_gap_is_not_charged_to_the_next_match() {
    let mut cfg = Config::default();
    cfg.daily_allowance.enabled = true;
    let start = start();
    let record = DailyUsage {
        version: 1,
        local_date: "2026-09-20".into(),
        used_seconds: 0,
    };
    let mut tracker = UsageTracker::new(record, start);
    tracker.tick(&cfg, civil(Weekday::Sun, 12, 0, 20), start + 300 * SECOND, false);
    tracker.tick(&cfg, civil(Weekday::Sun, 12, 5, 20), start + 301 * SECOND, true);
    assert_eq!(tracker.record().used_seconds, 0);
    tracker.tick(&cfg, civil(Weekday::Sun, 12, 5, 20), start + 302 * SECOND, true);
    assert_eq!(tracker.record().used_seconds, 1);
}

#[test]
fn entering_the_schedule_does_not_charge_the_outside_interval() {
    let mut cfg = Config::default();
    cfg.daily_allowance.enabled = true;
    cfg.schedule.enabled = true;
    cfg.schedule.weekdays = vec![Weekday::Sun];
    cfg.schedule.start = "12:00".into();
    cfg.schedule.end = "13:00".into();
    let start = start();
    let mut tracker = UsageTracker::new(DailyUsage::new("2026-09-20".into()), start);
    tracker.tick(&cfg, civil(Weekday::Sun, 11, 59, 20), start, true);
    tracker.tick(&cfg, civil(Weekday::Sun, 12, 0, 20), start + 60 * SECOND, true);
    assert_eq!(tracker.record().used_seconds, 0);
    tracker.tick(&cfg, civil(Weekday::Sun, 12, 0, 20), start + 61 * SECOND, true);
    assert_eq!(tracker.record().used_seconds, 1);
}

#[test]
fn invalid_primary_recovers_usage_from_backup() {
    let backup = DailyUsage {
        version: 1,
        local_date: "2026-09-20".into(),
        used_seconds: 42,
    };
    let found = load_json(FileRead::Malformed, FileRead::Parsed(backup));
    let (loaded, notes) = load(found, None, "2026-09-20".into());
    assert_eq!(loaded.used_seconds, 42);
    assert!(notes
        .iter()
        .any(|note| note.contains("recovered from its backup")));
}

#[test]
fn civil_dates_are_zero_padded() {
    let c = CivilTime { year: 987, month: 3, day: 4, weekday: Weekday::Fri, minute: 0 };
    assert_eq!(c.date(), "0987-03-04");
    let c = CivilTime { year: 2026, month: 12, day: 31, weekday: Weekday::Thu, minute: 0 };
    assert_eq!(c.date(), "2026-12-31");
}

#[test]
fn usage_records_need_version_one_and_a_plain_date() {
    assert!(DailyUsage::new("2026-09-20".into()).is_valid());
    assert!(!DailyUsage::new("2026-9-20".into()).is_valid());
    assert!(!DailyUsage::new("2026/09/20".into()).is_valid());
    assert!(!DailyUsage::new("2026-09-2x".into()).is_valid());
    let mut old = DailyUsage::new("2026-09-20".into());
    old.version = 2;
    assert!(!old.is_valid());
}

#[test]
fn fractions_of_a_second_carry_to_the_next_sample() {
    let mut cfg = Config::default();
    cfg.daily_allowance.enabled = true;
    let start = start();
    let mut tracker = UsageTracker::new(DailyUsage::new("2026-09-20".into()), start);
    let now = civil(Weekday::Sun, 12, 0, 20);
    tracker.tick(&cfg, now, start, true);
    tracker.tick(&cfg, now, start + SECOND / 2 + SECOND / 10, true);
    assert_eq!(tracker.record().used_seconds, 0);
    tracker.tick(&cfg, now, start + 2 * (SECOND / 2 + SECOND / 10), true);
    assert_eq!(tracker.record().used_seconds, 1);
    let status = tracker.status(&cfg, now);
    assert_eq!(status.state, UsageState::Available);
    assert_eq!(status.allowance_seconds, Some(1800));
    assert_eq!(status.remaining_seconds, Some(1799));
}

#[test]
fn outside_the_schedule_nothing_counts_and_nothing_is_enforced() {
    let mut cfg = Config::default();
    cfg.schedule.enabled = true;
    cfg.schedule.weekdays = vec![Weekday::Mon];
    let start = start();
    let mut tracker = UsageTracker::new(DailyUsage::new("2026-09-20".into()), start);
    let sunday = civil(Weekday::Sun, 12, 0, 20);
    let decision = tracker.tick(&cfg, sunday, start, true);
    assert!(!decision.enforcement_allowed);
    assert_eq!(tracker.status(&cfg, sunday).state, UsageState::OutsideSchedule);
    let monday = civil(Weekday::Mon, 12, 0, 21);
    assert!(tracker.tick(&cfg, monday, start + SECOND, true).enforcement_allowed);
    assert_eq!(tracker.status(&cfg, monday).state, UsageState::Disabled);
    assert_eq!(tracker.status(&cfg, monday).allowance_seconds, None);
}

#[test]
fn flushes_wait_for_a_change_and_thirty_seconds() {
    let mut cfg = Config::default();
    cfg.daily_allowance.enabled = true;
    let start = start();
    let mut tracker = UsageTracker::new(DailyUsage::new("2026-09-20".into()), start);
    assert!(!tracker.should_flush(start + 60 * SECOND));
    let now = civil(Weekday::Sun, 12, 0, 20);
    tracker.tick(&cfg, now, start, true);
    tracker.tick(&cfg, now, start + 2 * SECOND, true);
    assert!(!tracker.should_flush(start + 29 * SECOND));
    assert!(tracker.should_flush(start + 30 * SECOND));
    tracker.mark_flushed(start + 30 * SECOND);
    assert!(!tracker.should_flush(start + 90 * SECOND));
}

#[test]
fn usage_load_falls_back_to_today() {
    let (record, notes) = load(
        load_json::<DailyUsage>(FileRead::NotFound("gone".into()), FileRead::NotFound("gone".into())),
        None,
        "2026-09-20".into(),
    );
    assert_eq!(record.local_date, "2026-09-20");
    assert_eq!(record.used_seconds, 0);
    assert!(notes.is_empty());
    let bad = DailyUsage { version: 1, local_date: "yesterday".into(), used_seconds: 5 };
    let good = DailyUsage { version: 1, local_date: "2026-09-19".into(), used_seconds: 7 };
    let (record, notes) = load(
        load_json(FileRead::Parsed(bad), FileRead::NotFound("gone".into())),
        Some(good),
        "2026-09-20".into(),
    );
    assert_eq!(record.used_seconds, 7);
    assert_eq!(notes, vec!["usage.json failed validation and was recovered from its backup".to_string()]);
}

#[test]
fn system_clock_fields_become_civil_time() {
    let t = civil_time(2026, 9, 20, 0, 13, 5);
    assert_eq!(t.weekday, Weekday::Sun);
    assert_eq!(t.minute, 13 * 60 + 5);
    assert_eq!(t.date(), "2026-09-20");
    assert_eq!(civil_time(2026, 9, 21, 1, 0, 0).weekday, Weekday::Mon);
    assert_eq!(civil_time(2026, 9, 25, 5, 0, 0).weekday, Weekday::Fri);
    assert_eq!(civil_time(2026, 9, 26, 6, 23, 59).weekday, Weekday::Sat);
    assert_eq!(civil_time(2026, 9, 26, 6, 23, 59).minute, 1439);
}

#[test]
fn with_both_controls_off_enforcement_is_never_held_back() {
    let cfg = Config::default();
    assert!(!cfg.daily_allowance.enabled);
    assert!(!cfg.schedule.enabled);
    let mut tracker = UsageTracker::new(DailyUsage::new("2026-09-20".into()), start());
    for (i, matched) in [true, false, true, true].into_iter().enumerate() {
        let now = start() + (i as u64) * 100 * SECOND;
        assert!(tracker.tick(&cfg, civil(Weekday::Sun, 3, 0, 20), now, matched).enforcement_allowed);
    }
    assert_eq!(tracker.record().used_seconds, 0);
}
