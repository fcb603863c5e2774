//! The daily allowance and the weekly patrol schedule.
//!
//! Usage is counted per local date from monotonic time: the caller
//! supplies the local civil time and a monotonic instant in nanoseconds
//! with every sample. Only the local date and the aggregate number of
//! used seconds are kept.

use vstd::prelude::*;
use crate::config::{clock_minutes, is_digit, parse_clock, Config, ConfigView, PatrolScheduleConfig, ScheduleView, Weekday};
use crate::text::{chars_of, padded, push_padded, push_str};
use crate::storage::{ends_with, failure_detail, failure_detail_text, join_path, note3, opt_text, placed_in, verbatim, LoadJson};
use crate::progress::notes_view;

verus! {

/// How often a changed usage record is written out: 30 seconds.
pub const FLUSH_INTERVAL_NS: u64 = 30_000_000_000;

pub const NANOS_PER_SECOND: u64 = 1_000_000_000;

/// The local wall-clock reading used for dates and the schedule.
#[derive(Debug, Clone, Copy, PartialEq, Eq, Structural)]
pub struct CivilTime {
    pub year: u16,
    pub month: u16,
    pub day: u16,
    pub weekday: Weekday,
    /// minutes after local midnight
    pub minute: u16,
}

/// The weekday of the system's day-of-week number (0 is Sunday; what is
/// past 5 reads as Saturday).
pub open spec fn weekday_of(n: u16) -> Weekday {
    if n == 0 {
        Weekday::Sun
    } else if n == 1 {
        Weekday::Mon
    } else if n == 2 {
        Weekday::Tue
    } else if n == 3 {
        Weekday::Wed
    } else if n == 4 {
        Weekday::Thu
    } else if n == 5 {
        Weekday::Fri
    } else {
        Weekday::Sat
    }
}

/// The local time from the system clock's fields.
pub fn civil_time(year: u16, month: u16, day: u16, day_of_week: u16, hour: u16, minute: u16) -> (r: CivilTime)
    requires
        hour * 60 + minute <= u16::MAX,
    ensures
        r == (CivilTime { year, month, day, weekday: weekday_of(day_of_week), minute: (hour * 60 + minute) as u16 }),
{
    let weekday = match day_of_week {
        0 => Weekday::Sun,
        1 => Weekday::Mon,
        2 => Weekday::Tue,
        3 => Weekday::Wed,
        4 => Weekday::Thu,
        5 => Weekday::Fri,
        _ => Weekday::Sat,
    };
    CivilTime { year, month, day, weekday, minute: hour * 60 + minute }
}

/// `YYYY-MM-DD`, each part zero-padded.
pub open spec fn date_text(c: CivilTime) -> Seq<char> {
    padded(c.year as nat, 4) + "-"@ + padded(c.month as nat, 2) + "-"@ + padded(c.day as nat, 2)
}

impl CivilTime {
    /// The local date as `YYYY-MM-DD`.
    pub fn date(self) -> (r: String)
        ensures
            r@ == date_text(self),
    {
        let mut s = String::new();
        push_padded(&mut s, self.year as u64, 4);
        push_str(&mut s, "-");
        push_padded(&mut s, self.month as u64, 2);
        push_str(&mut s, "-");
        push_padded(&mut s, self.day as u64, 2);
        assert(s@ =~= date_text(self));
        s
    }
}

/// The stored usage of one local date.
#[derive(Debug)]
pub struct DailyUsage {
    pub version: u8,
    pub local_date: String,
    pub used_seconds: u64,
}

pub struct UsageView {
    pub version: u8,
    pub local_date: Seq<char>,
    pub used_seconds: u64,
}

impl View for DailyUsage {
    type V = UsageView;

    open spec fn view(&self) -> UsageView {
        UsageView { version: self.version, local_date: self.local_date@, used_seconds: self.used_seconds }
    }
}

impl Clone for DailyUsage {
    fn clone(&self) -> (r: Self)
        ensures
            r@ == self@,
    {
        DailyUsage {
            version: self.version,
            local_date: self.local_date.clone(),
            used_seconds: self.used_seconds,
        }
    }
}

/// A record is usable when it has schema version 1 and a `DDDD-DD-DD`
/// date of ASCII digits and dashes (ten bytes, so ten ASCII characters).
pub open spec fn usage_valid(u: UsageView) -> bool {
    &&& u.version == 1
    &&& u.local_date.len() == 10
    &&& u.local_date[4] == '-'
    &&& u.local_date[7] == '-'
    &&& forall|i: int| 0 <= i < 10 && i != 4 && i != 7 ==> is_digit(#[trigger] u.local_date[i])
}

impl DailyUsage {
    /// No usage yet on `date`.
    pub fn new(date: String) -> (r: Self)
        ensures
            r@ == (UsageView { version: 1, local_date: date@, used_seconds: 0 }),
    {
        DailyUsage { version: 1, local_date: date, used_seconds: 0 }
    }

    pub fn is_valid(&self) -> (r: bool)
        ensures
            r == usage_valid(self@),
    {
        let d = chars_of(self.local_date.as_str());
        if self.version != 1 || d.len() != 10 || d[4] != '-' || d[7] != '-' {
            return false;
        }
        let mut i: usize = 0;
        while i < 10
            invariant
                i <= 10,
                d@ == self.local_date@,
                d@.len() == 10,
                forall|j: int| 0 <= j < i && j != 4 && j != 7 ==> is_digit(#[trigger] d@[j]),
            decreases 10 - i,
        {
            if i != 4 && i != 7 && !('0' <= d[i] && d[i] <= '9') {
                return false;
            }
            i = i + 1;
        }
        true
    }
}

#[derive(Debug, Clone, Copy, PartialEq, Eq, Structural)]
pub enum UsageState {
    Disabled,
    OutsideSchedule,
    Available,
    Exhausted,
}

/// What the status surfaces show about the allowance.
#[derive(Debug)]
pub struct UsageStatus {
    pub state: UsageState,
    pub used_seconds: u64,
    pub allowance_seconds: Option<u64>,
    pub remaining_seconds: Option<u64>,
    pub local_date: String,
}

/// Whether enforcement may proceed after a usage sample.
#[derive(Debug, Clone, Copy, PartialEq, Eq, Structural)]
pub struct UsageDecision {
    pub enforcement_allowed: bool,
}

/// Counts matched foreground time against the current local date.
#[derive(Debug)]
pub struct UsageTracker {
    record: DailyUsage,
    last_sample: u64,
    last_flush: u64,
    last_countable: bool,
    /// nanoseconds counted but not yet a whole second
    remainder: u64,
    dirty: bool,
}

pub struct TrackerView {
    pub record: UsageView,
    pub last_sample: u64,
    pub last_flush: u64,
    pub last_countable: bool,
    pub remainder: u64,
    pub dirty: bool,
}

impl View for UsageTracker {
    type V = TrackerView;

    closed spec fn view(&self) -> TrackerView {
        TrackerView {
            record: self.record@,
            last_sample: self.last_sample,
            last_flush: self.last_flush,
            last_countable: self.last_countable,
            remainder: self.remainder,
            dirty: self.dirty,
        }
    }
}

pub open spec fn previous_day(d: Weekday) -> Weekday {
    match d {
        Weekday::Mon => Weekday::Sun,
        Weekday::Tue => Weekday::Mon,
        Weekday::Wed => Weekday::Tue,
        Weekday::Thu => Weekday::Wed,
        Weekday::Fri => Weekday::Thu,
        Weekday::Sat => Weekday::Fri,
        Weekday::Sun => Weekday::Sat,
    }
}

/// Patrol is active: always when the schedule is off; never when its
/// times do not parse; otherwise on a selected start weekday between the
/// start and end times, where equal times mean the whole day and an end
/// at or before the start means the window runs past midnight, the
/// after-midnight part belonging to the previous weekday.
pub open spec fn schedule_active_view(s: ScheduleView, now: CivilTime) -> bool {
    if !s.enabled {
        true
    } else {
        match (clock_minutes(s.start), clock_minutes(s.end)) {
            (Some(start), Some(end)) => if start == end {
                s.weekdays.contains(now.weekday)
            } else if start < end {
                s.weekdays.contains(now.weekday) && start <= now.minute && now.minute < end
            } else if now.minute >= start {
                s.weekdays.contains(now.weekday)
            } else {
                now.minute < end && s.weekdays.contains(previous_day(now.weekday))
            },
            _ => false,
        }
    }
}

fn previous_weekday(day: Weekday) -> (r: Weekday)
    ensures
        r == previous_day(day),
{
    match day {
        Weekday::Mon => Weekday::Sun,
        Weekday::Tue => Weekday::Mon,
        Weekday::Wed => Weekday::Tue,
        Weekday::Thu => Weekday::Wed,
        Weekday::Fri => Weekday::Thu,
        Weekday::Sat => Weekday::Fri,
        Weekday::Sun => Weekday::Sat,
    }
}

fn selected(days: &Vec<Weekday>, day: Weekday) -> (r: bool)
    ensures
        r == days@.contains(day),
{
    let mut i: usize = 0;
    while i < days.len()
        invariant
            i <= days.len(),
            forall|j: int| 0 <= j < i ==> days@[j] != day,
        decreases days.len() - i,
    {
        if days[i] == day {
            assert(days@[i as int] == day);
            return true;
        }
        i = i + 1;
    }
    false
}

/// Whether patrol is active at the civil time `now`.
pub fn schedule_active(schedule: &PatrolScheduleConfig, now: CivilTime) -> (r: bool)
    ensures
        r == schedule_active_view(schedule@, now),
{
    if !schedule.enabled {
        return true;
    }
    let (start, end) = match (parse_clock(schedule.start.as_str()), parse_clock(schedule.end.as_str())) {
        (Some(start), Some(end)) => (start, end),
        _ => return false,
    };
    if start == end {
        return selected(&schedule.weekdays, now.weekday);
    }
    if start < end {
        return selected(&schedule.weekdays, now.weekday) && now.minute >= start && now.minute < end;
    }
    if now.minute >= start {
        return selected(&schedule.weekdays, now.weekday);
    }
    now.minute < end && selected(&schedule.weekdays, previous_weekday(now.weekday))
}

pub open spec fn sat_add(a: u64, b: u64) -> u64 {
    if a + b > u64::MAX {
        u64::MAX
    } else {
        (a + b) as u64
    }
}

pub open spec fn sat_sub(a: u64, b: u64) -> u64 {
    if a < b {
        0
    } else {
        (a - b) as u64
    }
}

pub open spec fn allowance_seconds(c: ConfigView) -> u64 {
    if c.daily_allowance.minutes * 60 > u64::MAX {
        u64::MAX
    } else {
        (c.daily_allowance.minutes * 60) as u64
    }
}

/// `minutes.saturating_mul(60)`.
fn allowance_of(minutes: u64) -> (r: u64)
    ensures
        r == (if minutes * 60 > u64::MAX {
            u64::MAX
        } else {
            (minutes * 60) as u64
        }),
{
    if minutes > u64::MAX / 60 {
        u64::MAX
    } else {
        minutes * 60
    }
}

/// The tracker after a sample at `now`, and whether enforcement may
/// proceed. A sample on a new local date starts that date at zero and
/// charges nothing for the interval that crossed the change; time counts
/// only between two consecutive countable samples (allowance on, patrol
/// scheduled, a rule matched), whole seconds at a time.
pub open spec fn tick_view(t: TrackerView, c: ConfigView, civil: CivilTime, now: u64, matched: bool) -> (
    TrackerView,
    bool,
) {
    let date = date_text(civil);
    let new_date = t.record.local_date != date;
    let elapsed: u64 = if new_date {
        0
    } else {
        sat_sub(now, t.last_sample)
    };
    let record = if new_date {
        UsageView { version: 1, local_date: date, used_seconds: 0 }
    } else {
        t.record
    };
    let remainder0: u64 = if new_date {
        0
    } else {
        t.remainder
    };
    let scheduled = schedule_active_view(c.schedule, civil);
    let countable = c.daily_allowance.enabled && scheduled && matched;
    let counted = countable && t.last_countable;
    let pending = sat_add(remainder0, elapsed);
    let whole: u64 = (pending / NANOS_PER_SECOND) as u64;
    let used: u64 = if counted {
        sat_add(record.used_seconds, whole)
    } else {
        record.used_seconds
    };
    let remainder: u64 = if counted {
        (pending % NANOS_PER_SECOND) as u64
    } else {
        0
    };
    let dirty = t.dirty || new_date || (counted && whole > 0);
    let exhausted = c.daily_allowance.enabled && used >= allowance_seconds(c);
    (
        TrackerView {
            record: UsageView { used_seconds: used, ..record },
            last_sample: now,
            last_flush: t.last_flush,
            last_countable: countable,
            remainder,
            dirty,
        },
        scheduled && (!c.daily_allowance.enabled || exhausted),
    )
}

/// The state shown for the allowance at `civil`.
pub open spec fn status_state(t: TrackerView, c: ConfigView, civil: CivilTime) -> UsageState {
    if !schedule_active_view(c.schedule, civil) {
        UsageState::OutsideSchedule
    } else if !c.daily_allowance.enabled {
        UsageState::Disabled
    } else if status_used(t, civil) >= allowance_seconds(c) {
        UsageState::Exhausted
    } else {
        UsageState::Available
    }
}

/// Usage shown for `civil`'s date: nothing when the record is of another date.
pub open spec fn status_used(t: TrackerView, civil: CivilTime) -> u64 {
    if t.record.local_date == date_text(civil) {
        t.record.used_seconds
    } else {
        0
    }
}

impl UsageTracker {
    pub fn new(record: DailyUsage, now: u64) -> (r: Self)
        ensures
            r@ == (TrackerView {
                record: record@,
                last_sample: now,
                last_flush: now,
                last_countable: false,
                remainder: 0,
                dirty: false,
            }),
    {
        UsageTracker { record, last_sample: now, last_flush: now, last_countable: false, remainder: 0, dirty: false }
    }

    /// Records one monitor sample and says whether enforcement may proceed.
    pub fn tick(&mut self, cfg: &Config, civil: CivilTime, now: u64, matched: bool) -> (r: UsageDecision)
        ensures
            (final(self)@, r.enforcement_allowed) == tick_view(old(self)@, cfg@, civil, now, matched),
    {
        let mut elapsed: u64 = now.saturating_sub(self.last_sample);
        self.last_sample = now;
        let date = civil.date();
        if self.record.local_date != date {
            self.record = DailyUsage::new(date);
            self.remainder = 0;
            self.dirty = true;
            // The sample interval may straddle local midnight (or a
            // timezone change). Its exact split is unknown, so never
            // attribute the previous date's time to the new date.
            elapsed = 0;
        }
        let scheduled = schedule_active(&cfg.schedule, civil);
        let countable = cfg.daily_allowance.enabled && scheduled && matched;
        let limit = allowance_of(cfg.daily_allowance.minutes);
        if countable && self.last_countable {
            self.remainder = self.remainder.saturating_add(elapsed);
            let whole = self.remainder / NANOS_PER_SECOND;
            if whole > 0 {
                self.record.used_seconds = self.record.used_seconds.saturating_add(whole);
                self.remainder = self.remainder % NANOS_PER_SECOND;
                self.dirty = true;
            }
        } else {
            self.remainder = 0;
        }
        self.last_countable = countable;
        let exhausted = cfg.daily_allowance.enabled && self.record.used_seconds >= limit;
        let r = UsageDecision { enforcement_allowed: scheduled && (!cfg.daily_allowance.enabled || exhausted) };
        assert(self@.record =~= tick_view(old(self)@, cfg@, civil, now, matched).0.record);
        r
    }

    /// The allowance as the status surfaces show it at `civil`.
    pub fn status(&self, cfg: &Config, civil: CivilTime) -> (r: UsageStatus)
        ensures
            r.state == status_state(self@, cfg@, civil),
            r.used_seconds == status_used(self@, civil),
            r.allowance_seconds == (if cfg@.daily_allowance.enabled {
                Some(allowance_seconds(cfg@))
            } else {
                None
            }),
            r.remaining_seconds == (if cfg@.daily_allowance.enabled {
                Some(sat_sub(allowance_seconds(cfg@), status_used(self@, civil)))
            } else {
                None
            }),
            r.local_date@ == date_text(civil),
    {
        let scheduled = schedule_active(&cfg.schedule, civil);
        let allowance = allowance_of(cfg.daily_allowance.minutes);
        let date = civil.date();
        let used_seconds = if self.record.local_date == date {
            self.record.used_seconds
        } else {
            0
        };
        let state = if !scheduled {
            UsageState::OutsideSchedule
        } else if !cfg.daily_allowance.enabled {
            UsageState::Disabled
        } else if used_seconds >= allowance {
            UsageState::Exhausted
        } else {
            UsageState::Available
        };
        let enabled = cfg.daily_allowance.enabled;
        UsageStatus {
            state,
            used_seconds,
            allowance_seconds: if enabled {
                Some(allowance)
            } else {
                None
            },
            remaining_seconds: if enabled {
                Some(allowance.saturating_sub(used_seconds))
            } else {
                None
            },
            local_date: date,
        }
    }

    /// A changed record is due to be written: at most once every 30 seconds.
    pub fn should_flush(&self, now: u64) -> (r: bool)
        ensures
            r == (self@.dirty && sat_sub(now, self@.last_flush) >= FLUSH_INTERVAL_NS),
    {
        self.dirty && now.saturating_sub(self.last_flush) >= FLUSH_INTERVAL_NS
    }

    /// The record to write.
    pub fn record(&self) -> (r: &DailyUsage)
        ensures
            r@ == self@.record,
    {
        &self.record
    }

    /// Notes that the record was written at `now`.
    pub fn mark_flushed(&mut self, now: u64)
        ensures
            final(self)@ == (TrackerView { dirty: false, last_flush: now, ..old(self)@ }),
    {
        self.dirty = false;
        self.last_flush = now;
    }
}

/// Law: a sample never subtracts usage on the same date, whatever the
/// clocks did; on a new date usage starts at zero and nothing of the
/// interval that crossed the change is charged; an interval that did not
/// start from a countable sample is never charged; and the carried
/// fraction stays below one second.
pub proof fn usage_only_grows_within_a_date(t: TrackerView, c: ConfigView, civil: CivilTime, now: u64, matched: bool)
    ensures
        ({
            let (u, _) = tick_view(t, c, civil, now, matched);
            &&& t.record.local_date == date_text(civil) ==> u.record.used_seconds >= t.record.used_seconds
            &&& t.record.local_date != date_text(civil) ==> u.record.used_seconds == 0 && u.record.local_date
                == date_text(civil)
            &&& !t.last_countable ==> u.record.used_seconds == (if t.record.local_date == date_text(civil) {
                t.record.used_seconds
            } else {
                0
            })
            &&& u.remainder < NANOS_PER_SECOND
        }),
{
}

/// Law: with the allowance and the schedule both off, the usage rules
/// never hold enforcement back: rules keep their plain grace.
pub proof fn opt_in_controls_change_nothing(t: TrackerView, c: ConfigView, civil: CivilTime, now: u64, matched: bool)
    requires
        !c.daily_allowance.enabled,
        !c.schedule.enabled,
    ensures
        tick_view(t, c, civil, now, matched).1,
        tick_view(t, c, civil, now, matched).0.record.used_seconds == (if t.record.local_date == date_text(civil) {
            t.record.used_seconds
        } else {
            0
        }),
{
}

/// Law: samples never move the time of the last write, so a record is
/// written at most once every 30 seconds however often samples come.
pub proof fn flushes_are_thirty_seconds_apart(t: TrackerView, c: ConfigView, civil: CivilTime, now: u64, matched: bool, later: u64)
    ensures
        tick_view(t, c, civil, now, matched).0.last_flush == t.last_flush,
        ({
            let u = tick_view(t, c, civil, now, matched).0;
            u.dirty && sat_sub(later, u.last_flush) >= FLUSH_INTERVAL_NS ==> later >= t.last_flush + FLUSH_INTERVAL_NS
        }),
{
}

/// Law: with the schedule off patrol is always active; with it on but a
/// time that is not a strict `HH:MM`, never.
pub proof fn schedule_off_or_unreadable(s: ScheduleView, now: CivilTime)
    ensures
        !s.enabled ==> schedule_active_view(s, now),
        s.enabled && (clock_minutes(s.start) is None || clock_minutes(s.end) is None) ==> !schedule_active_view(s, now),
{
}

/// Law: a same-day window, start before end, is active exactly on a
/// selected weekday from the start time up to, not including, the end.
pub proof fn same_day_window_is_active_only_between_its_times(s: ScheduleView, now: CivilTime, a: u16, b: u16)
    requires
        s.enabled,
        clock_minutes(s.start) == Some(a),
        clock_minutes(s.end) == Some(b),
        a < b,
    ensures
        schedule_active_view(s, now) <==> (s.weekdays.contains(now.weekday) && a <= now.minute && now.minute < b),
{
}

/// Law: a window that runs past midnight, end before start, is active on
/// a selected weekday from the start time on, and after midnight up to the
/// end time when the day before was selected; between the end and the
/// start it is not active.
pub proof fn overnight_window_belongs_to_its_start_day(s: ScheduleView, now: CivilTime, a: u16, b: u16)
    requires
        s.enabled,
        clock_minutes(s.start) == Some(a),
        clock_minutes(s.end) == Some(b),
        b < a,
    ensures
        schedule_active_view(s, now) <==> ((s.weekdays.contains(now.weekday) && now.minute >= a) || (
        s.weekdays.contains(previous_day(now.weekday)) && now.minute < b)),
        b <= now.minute < a ==> !schedule_active_view(s, now),
{
}

/// Law: equal start and end times cover every minute of each selected
/// weekday.
pub proof fn equal_times_cover_the_whole_day(s: ScheduleView, now: CivilTime, a: u16)
    requires
        s.enabled,
        clock_minutes(s.start) == Some(a),
        clock_minutes(s.end) == Some(a),
    ensures
        schedule_active_view(s, now) <==> s.weekdays.contains(now.weekday),
{
}

/// Law: outside the schedule nothing is counted and enforcement is off;
/// with the allowance off, enforcement follows the schedule alone.
pub proof fn schedule_gates_usage_and_enforcement(t: TrackerView, c: ConfigView, civil: CivilTime, now: u64, matched: bool)
    ensures
        ({
            let (u, allowed) = tick_view(t, c, civil, now, matched);
            &&& !schedule_active_view(c.schedule, civil) ==> !allowed && !u.last_countable && u.record.used_seconds
                == (if t.record.local_date == date_text(civil) {
                t.record.used_seconds
            } else {
                0
            })
            &&& !c.daily_allowance.enabled ==> allowed == schedule_active_view(c.schedule, civil)
        }),
{
}


/// The name of the file in the configuration directory.
pub const USAGE_FILE: &'static str = "usage.json";

/// Where usage.json lives in the directory `dir`: `dir` followed by the
/// file name, with a path separator between them unless `dir` already
/// ends with one.
pub fn usage_path(dir: &str) -> (r: String)
    ensures
        ends_with(r@, USAGE_FILE@),
        !verbatim(dir@) ==> placed_in(r@, dir@, USAGE_FILE@),
{
    proof {
        reveal_strlit("usage.json");
        reveal_strlit(".");
        reveal_strlit("..");
        assert(USAGE_FILE@ == "usage.json"@);
    }
    join_path(dir, USAGE_FILE)
}

pub open spec fn fresh_usage(today: Seq<char>) -> UsageView {
    UsageView { version: 1, local_date: today, used_seconds: 0 }
}

/// The usage record to start with and the notes to show, from what
/// loading `usage.json` found and, for a primary that failed validation,
/// what its backup file holds when read on its own.
pub open spec fn usage_load_view(loaded: LoadJson<DailyUsage>, backup: Option<DailyUsage>, today: Seq<char>) -> (
    UsageView,
    Seq<Seq<char>>,
) {
    match loaded {
        LoadJson::Primary(r) => if usage_valid(r@) {
            (r@, seq![])
        } else {
            match backup {
                Some(b) => if usage_valid(b@) {
                    (b@, seq!["usage.json failed validation and was recovered from its backup"@])
                } else {
                    (fresh_usage(today), seq!["usage.json failed validation, using today's zero usage"@])
                },
                None => (fresh_usage(today), seq!["usage.json failed validation, using today's zero usage"@]),
            }
        },
        LoadJson::Backup(r) => if usage_valid(r@) {
            (r@, seq!["usage.json was recovered from its backup"@])
        } else {
            (fresh_usage(today), seq!["recovered usage.json failed validation, using today's zero usage"@])
        },
        LoadJson::Missing => (fresh_usage(today), seq![]),
        LoadJson::Invalid { primary, backup } => (
            fresh_usage(today),
            seq![
                "usage.json could not be read ("@ + failure_detail_text(primary@, opt_text(backup))
                    + "), using today's zero usage"@,
            ],
        ),
    }
}

/// Decides the starting usage record from what loading `usage.json`
/// found; `backup` is the backup file's record when it parses on its own.
pub fn load(loaded: LoadJson<DailyUsage>, backup: Option<DailyUsage>, today: String) -> (r: (DailyUsage, Vec<String>))
    ensures
        r.0@ == usage_load_view(loaded, backup, today@).0,
        notes_view(r.1@) == usage_load_view(loaded, backup, today@).1,
{
    let ghost l = loaded;
    let ghost bk = backup;
    let mut notes: Vec<String> = Vec::new();
    let record = match loaded {
        LoadJson::Primary(record) => {
            if record.is_valid() {
                record
            } else {
                match backup {
                    Some(b) => {
                        if b.is_valid() {
                            notes.push(String::from_str("usage.json failed validation and was recovered from its backup"));
                            b
                        } else {
                            notes.push(String::from_str("usage.json failed validation, using today's zero usage"));
                            DailyUsage::new(today)
                        }
                    },
                    None => {
                        notes.push(String::from_str("usage.json failed validation, using today's zero usage"));
                        DailyUsage::new(today)
                    },
                }
            }
        },
        LoadJson::Backup(record) => {
            if record.is_valid() {
                notes.push(String::from_str("usage.json was recovered from its backup"));
                record
            } else {
                notes.push(String::from_str("recovered usage.json failed validation, using today's zero usage"));
                DailyUsage::new(today)
            }
        },
        LoadJson::Missing => DailyUsage::new(today),
        LoadJson::Invalid { primary, backup } => {
            let detail = failure_detail(&primary, &backup);
            notes.push(note3("usage.json could not be read (", &detail, "), using today's zero usage"));
            DailyUsage::new(today)
        },
    };
    assert(notes_view(notes@) =~= usage_load_view(l, bk, today@).1);
    (record, notes)
}

/// Law: loading keeps a usage record that passes validation: a valid
/// primary as it is, with no note; a primary that fails validation gives
/// way to a backup that passes; only when neither passes, or no file
/// exists, does today's zero usage come in.
pub proof fn load_prefers_valid_usage(p: DailyUsage, b: DailyUsage, today: Seq<char>)
    ensures
        usage_valid(p@) ==> usage_load_view(LoadJson::Primary(p), Some(b), today) == (p@, Seq::<Seq<char>>::empty()),
        usage_valid(p@) ==> usage_load_view(LoadJson::Primary(p), None, today) == (p@, Seq::<Seq<char>>::empty()),
        !usage_valid(p@) && usage_valid(b@) ==> usage_load_view(LoadJson::Primary(p), Some(b), today).0 == b@,
        !usage_valid(p@) && !usage_valid(b@) ==> usage_load_view(LoadJson::Primary(p), Some(b), today).0
            == fresh_usage(today),
        !usage_valid(p@) ==> usage_load_view(LoadJson::Primary(p), None, today).0 == fresh_usage(today),
        usage_valid(p@) ==> usage_load_view(LoadJson::Backup(p), Some(b), today).0 == p@,
        !usage_valid(p@) ==> usage_load_view(LoadJson::Backup(p), Some(b), today).0 == fresh_usage(today),
        usage_load_view(LoadJson::Missing, Some(b), today) == (fresh_usage(today), Seq::<Seq<char>>::empty()),
{
}

} // verus!
