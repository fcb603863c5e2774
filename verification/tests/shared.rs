use badkat::config::{Config, EnforcementMode, RuleAction, Weekday};
use badkat::patrol::{Earned, COOLDOWN_NS};
use badkat::progress::Progress;
use badkat::shared::{AttemptStage, AttemptStep, Shared, Signal};
use badkat::usage::{CivilTime, DailyUsage, UsageState};
use badkat::win::{Dispatch, Snapshot, CONFIRM_INTERVAL_MS};

const S: u64 = 1_000_000_000;

fn civil(day: u16) -> CivilTime {
    CivilTime {
        year: 2026,
        month: 9,
        day,
        weekday: Weekday::Sun,
        minute: 12 * 60,
    }
}

fn short(hwnd: isize) -> Snapshot {
    Snapshot {
        hwnd,
        pid: 42,
        proc: "chrome".into(),
        title: "A Short - YouTube".into(),
        url: "youtube.com/shorts/abc".into(),
    }
}

fn fresh_state(cfg: Config) -> Shared {
    Shared::new(cfg, Vec::new(), Progress::default(), DailyUsage::new("2026-09-20".into()), 0)
}

fn last_event(s: &Shared) -> (String, String, String) {
    let e = s.trail.last().unwrap();
    (e.event.clone(), e.rule.clone(), e.detail.clone())
}

#[test]
fn a_watched_short_is_busted_once_with_a_ticket() {
    let mut s = fresh_state(Config::default());
    let countdown = s.cfg.countdown_seconds;

    let p = s.poll(Some(short(7)), civil(20), S);
    match p.signal {
        Signal::Status { watching, label, remaining_ns } => {
            assert!(watching);
            assert_eq!(label, "YouTube Shorts");
            assert_eq!(remaining_ns, 6 * S);
        }
        other => panic!("unexpected {:?}", other),
    }
    assert_eq!(last_event(&s), ("spotted".into(), "youtube-shorts".into(), "A Short - YouTube".into()));
    assert_eq!(s.trail.last().unwrap().at, "+0:01");
    assert_eq!(s.matched.as_deref(), Some("YouTube Shorts"));

    let p = s.poll(Some(short(7)), civil(20), 7 * S);
    let ticket = match p.signal {
        Signal::Bust { rule_id, label, mode, countdown: c, ticket } => {
            assert_eq!(rule_id, "youtube-shorts");
            assert_eq!(label, "YouTube Shorts");
            assert_eq!(mode, EnforcementMode::Close);
            assert_eq!(c, countdown);
            ticket.expect("close mode asks for a ticket")
        }
        other => panic!("unexpected {:?}", other),
    };
    assert_eq!(ticket.action, RuleAction::Tab);
    assert_eq!(ticket.target.hwnd, 7);
    assert_eq!(last_event(&s).0, "caught");
    assert_eq!(s.remaining_ns, 0);

    let id = s.issue_ticket(&ticket, 7 * S, Some("{ticket-1}".into()));
    assert_eq!(id.as_deref(), Some("{ticket-1}"));
    assert_eq!(s.action_tickets.len(), 1);

    // the same page stays in front: nothing new
    assert!(matches!(s.poll(Some(short(7)), civil(20), 8 * S).signal, Signal::Quiet));

    let mut attempt = match s.begin_act("{ticket-1}", &short(7), civil(20), 10 * S) {
        Ok(a) => a,
        Err(r) => panic!("refused: {}", r.reason),
    };
    assert_eq!(attempt.target().hwnd, 7);
    assert_eq!(attempt.stage(), AttemptStage::Check);
    assert_eq!(s.action_tickets.len(), 0);
    assert_eq!(attempt.front(Some(7), "A Short - YouTube"), AttemptStep::Send(Dispatch::Keystroke));
    assert_eq!(attempt.delivered(true, 10 * S), AttemptStep::Look);
    // the tab is gone: the window no longer reads as a short
    let mut after = short(7);
    after.url = "youtube.com/".into();
    after.title = "YouTube".into();
    assert_eq!(attempt.observed(Some(&after), 10 * S + 125_000_000), AttemptStep::Finish);
    assert!(attempt.acted());

    let (result, view) = s.finish_act(attempt, 11 * S);
    assert!(result.acted);
    assert_eq!(result.reason, "tab");
    let view = view.expect("a confirmed close is banked");
    assert_eq!(view.closes, 1);
    assert_eq!(view.awarded, 25);
    assert_eq!(view.xp, 25);
    assert_eq!(s.cooldown_until, Some(11 * S + COOLDOWN_NS));
    assert!(s.trail.iter().any(|e| e.event == "closed" && e.detail == "tab"));

    // resting after the attempt: the watch sees nothing
    match s.poll(Some(short(7)), civil(20), 12 * S).signal {
        Signal::Status { watching, .. } => assert!(!watching),
        other => panic!("unexpected {:?}", other),
    }
    // the ticket was single-use
    match s.begin_act("{ticket-1}", &short(7), civil(20), 13 * S) {
        Err(r) => {
            assert!(!r.acted);
            assert_eq!(r.reason, "unknown or expired action");
        }
        Ok(_) => panic!("a consumed ticket authorized twice"),
    }
}

#[test]
fn a_refused_attempt_is_noted_and_earns_nothing() {
    let mut s = fresh_state(Config::default());
    match s.begin_act("nope", &short(7), civil(20), S) {
        Err(r) => {
            assert!(!r.acted);
            assert_eq!(r.reason, "unknown or expired action");
        }
        Ok(_) => panic!("unknown ticket authorized"),
    }
    assert_eq!(last_event(&s), ("skipped".into(), "".into(), "unknown or expired action".into()));
    let lost = s.finish_lost(2 * S);
    assert!(!lost.acted);
    assert_eq!(lost.reason, "close confirmation failed");
    assert_eq!(s.progress.closes, 0);
    assert_eq!(s.progress.total_xp, 0);
    assert_eq!(s.cooldown_until, Some(2 * S + COOLDOWN_NS));
    assert_eq!(last_event(&s), ("skipped".into(), "".into(), "close confirmation failed".into()));
}

/// A state holding a ticket for a watched short, and its ID.
fn with_ticket() -> Shared {
    let mut s = fresh_state(Config::default());
    s.poll(Some(short(7)), civil(20), 0);
    let ticket = match s.poll(Some(short(7)), civil(20), 6 * S).signal {
        Signal::Bust { ticket: Some(t), .. } => t,
        other => panic!("unexpected {:?}", other),
    };
    s.issue_ticket(&ticket, 6 * S, Some("{t}".into()));
    s
}

#[test]
fn an_unconfirmed_close_earns_nothing() {
    let mut s = with_ticket();
    let mut attempt = s.begin_act("{t}", &short(7), civil(20), 7 * S).unwrap();
    attempt.front(Some(7), "(2) A Short - YouTube");
    attempt.delivered(true, 7 * S);
    // still there and still a short: wait, then give up at the deadline
    assert_eq!(attempt.observed(Some(&short(7)), 8 * S), AttemptStep::Wait(CONFIRM_INTERVAL_MS));
    assert_eq!(attempt.observed(Some(&short(7)), 9 * S), AttemptStep::Finish);
    assert!(!attempt.acted());
    let (result, view) = s.finish_act(attempt, 9 * S);
    assert!(!result.acted);
    assert_eq!(result.reason, "the target did not close");
    assert!(view.is_none());
    assert_eq!(s.progress.closes, 0);
    assert_eq!(last_event(&s), ("skipped".into(), "".into(), "the target did not close".into()));
}

#[test]
fn an_attempt_ends_early_when_the_window_moved_or_the_input_was_blocked() {
    let mut s = with_ticket();
    let mut attempt = s.begin_act("{t}", &short(7), civil(20), 7 * S).unwrap();
    assert_eq!(attempt.front(Some(8), "Work"), AttemptStep::Finish);
    let (result, view) = s.finish_act(attempt, 7 * S);
    assert_eq!(result.reason, "window is no longer in front");
    assert!(view.is_none());

    let mut s = with_ticket();
    let mut attempt = s.begin_act("{t}", &short(7), civil(20), 7 * S).unwrap();
    assert_eq!(attempt.front(Some(7), "Work - Google Docs"), AttemptStep::Finish);
    assert_eq!(s.finish_act(attempt, 7 * S).0.reason, "the window moved on");

    let mut s = with_ticket();
    let mut attempt = s.begin_act("{t}", &short(7), civil(20), 7 * S).unwrap();
    attempt.front(Some(7), "A Short - YouTube");
    assert_eq!(attempt.delivered(false, 7 * S), AttemptStep::Finish);
    let (result, view) = s.finish_act(attempt, 7 * S);
    assert!(!result.acted);
    assert_eq!(result.reason, "the keystroke was blocked");
    assert!(view.is_none());
    assert_eq!(s.progress.closes, 0);
}

#[test]
fn a_snooze_drops_tickets_and_only_nags() {
    let mut s = fresh_state(Config::default());
    s.poll(Some(short(7)), civil(20), 0);
    let p = s.poll(Some(short(7)), civil(20), 6 * S);
    let ticket = match p.signal {
        Signal::Bust { ticket: Some(t), .. } => t,
        other => panic!("unexpected {:?}", other),
    };
    s.issue_ticket(&ticket, 6 * S, Some("{t}".into()));
    assert_eq!(s.snooze(Some(5), 7 * S), 5);
    assert_eq!(s.action_tickets.len(), 0);
    assert_eq!(s.snooze_until, Some(7 * S + 300 * S));
    assert_eq!(last_event(&s), ("snooze".into(), "".into(), "5 min".into()));
    let status = s.status(civil(20), 8 * S);
    assert!(status.snoozing);
    assert_eq!(status.snooze_seconds_left, 299);
    assert!(matches!(s.begin_act("{t}", &short(7), civil(20), 8 * S), Err(_)));

    s.cancel_snooze();
    assert!(!s.snoozing(8 * S));
    assert_eq!(s.snooze(None, 9 * S), 5);
    s.tray_snooze(10 * S);
    assert_eq!(s.snooze_until, Some(10 * S + 300 * S));
}

#[test]
fn nothing_in_front_forgets_the_match() {
    let mut s = fresh_state(Config::default());
    s.poll(Some(short(7)), civil(20), S);
    let p = s.poll(None, civil(20), 2 * S);
    match p.signal {
        Signal::Status { watching, label, remaining_ns } => {
            assert!(!watching);
            assert_eq!(label, "");
            assert_eq!(remaining_ns, 0);
        }
        other => panic!("unexpected {:?}", other),
    }
    assert!(s.last.is_none());
    assert!(s.matched.is_none());
    assert_eq!(s.watch.match_id, "");
    // the grace starts over when the short comes back
    match s.poll(Some(short(7)), civil(20), 3 * S).signal {
        Signal::Status { remaining_ns, .. } => assert_eq!(remaining_ns, 6 * S),
        other => panic!("unexpected {:?}", other),
    }
}

#[test]
fn the_allowance_holds_the_cat_back_until_it_runs_out() {
    let mut cfg = Config::default();
    cfg.daily_allowance.enabled = true;
    cfg.daily_allowance.minutes = 1;
    let mut s = fresh_state(cfg);
    for t in [0u64, 30, 59] {
        match s.poll(Some(short(7)), civil(20), t * S).signal {
            Signal::Status { watching, .. } => assert!(!watching),
            other => panic!("unexpected {:?}", other),
        }
    }
    assert_eq!(s.status(civil(20), 59 * S).usage.state, UsageState::Available);
    // the sixtieth second is counted now: the allowance is used up and
    // the rule's grace starts from zero
    match s.poll(Some(short(7)), civil(20), 60 * S).signal {
        Signal::Status { watching, remaining_ns, .. } => {
            assert!(watching);
            assert_eq!(remaining_ns, 6 * S);
        }
        other => panic!("unexpected {:?}", other),
    }
    assert_eq!(s.status(civil(20), 60 * S).usage.state, UsageState::Exhausted);
    assert_eq!(s.status(civil(20), 60 * S).usage.remaining_seconds, Some(0));
}

#[test]
fn a_changed_usage_record_is_written_at_most_every_thirty_seconds() {
    let mut cfg = Config::default();
    cfg.daily_allowance.enabled = true;
    cfg.daily_allowance.minutes = 10;
    let mut s = fresh_state(cfg);
    assert!(s.poll(Some(short(7)), civil(20), 0).flush.is_none());
    assert!(s.poll(Some(short(7)), civil(20), 10 * S).flush.is_none());
    let record = s.poll(Some(short(7)), civil(20), 30 * S).flush.expect("due");
    assert_eq!(record.used_seconds, 30);
    s.usage_flushed(30 * S);
    assert!(s.poll(Some(short(7)), civil(20), 40 * S).flush.is_none());
    // a new date is a change too
    let record = s.poll(None, civil(21), 61 * S).flush.expect("due");
    assert_eq!(record.local_date, "2026-09-21");
    assert_eq!(record.used_seconds, 0);
}

#[test]
fn pats_count_once_every_four_seconds() {
    let mut s = fresh_state(Config::default());
    let v = s.award_pat(10 * S).expect("first pat counts");
    assert_eq!((v.pats, v.xp, v.awarded, v.gained), (1, 5, 5, 0));
    assert!(s.award_pat(12 * S).is_none());
    assert_eq!(s.progress.pats, 1);
    assert!(s.award_pat(14 * S).is_some());
    assert_eq!(s.progress.pats, 2);
    assert_eq!(s.last_pat, Some(14 * S));
}

#[test]
fn banking_notes_a_level_up() {
    let mut s = fresh_state(Config::default());
    s.bank_xp(Earned::Close, 0);
    let v = s.bank_xp(Earned::Close, 65 * S);
    assert_eq!((v.level, v.xp, v.gained, v.needed), (2, 0, 1, 65));
    assert_eq!(last_event(&s), ("level up".into(), "".into(), "now level 2".into()));
    assert_eq!(s.trail.last().unwrap().at, "+1:05");
}

#[test]
fn a_preview_only_nags() {
    let s = fresh_state(Config::default());
    match s.preview_bust() {
        Signal::Bust { rule_id, label, mode, countdown, ticket } => {
            assert_eq!(rule_id, "preview");
            assert_eq!(label, "YouTube Shorts");
            assert_eq!(mode, EnforcementMode::Nag);
            assert_eq!(countdown, s.cfg.countdown_seconds);
            assert!(ticket.is_none());
        }
        other => panic!("unexpected {:?}", other),
    }
}

#[test]
fn poll_intervals_have_floors() {
    let mut cfg = Config::default();
    assert_eq!(fresh_state(cfg.clone()).intervals(), (1000, 1500));
    cfg.poll_ms = 100;
    cfg.url_poll_ms = 100;
    assert_eq!(fresh_state(cfg).intervals(), (250, 500));
}

#[test]
fn settings_changes_drop_outstanding_tickets() {
    let mut s = fresh_state(Config::default());
    s.poll(Some(short(7)), civil(20), 0);
    let ticket = match s.poll(Some(short(7)), civil(20), 6 * S).signal {
        Signal::Bust { ticket: Some(t), .. } => t,
        other => panic!("unexpected {:?}", other),
    };
    s.issue_ticket(&ticket, 6 * S, Some("{a}".into()));
    assert!(!s.toggle_enabled());
    assert_eq!(s.action_tickets.len(), 0);
    assert!(s.toggle_enabled());

    s.issue_ticket(&ticket, 6 * S, Some("{b}".into()));
    s.cfg.rules.clear();
    let rules = s.reset_rules();
    assert_eq!(rules, Config::default().rules);
    assert_eq!(s.cfg.rules, Config::default().rules);
    assert_eq!(s.action_tickets.len(), 0);

    s.issue_ticket(&ticket, 6 * S, Some("{c}".into()));
    let mut cfg = Config::default();
    cfg.mode = EnforcementMode::Nag;
    assert!(cfg.validate().is_empty());
    s.apply_config(cfg, 7 * S);
    assert_eq!(s.cfg.mode, EnforcementMode::Nag);
    assert_eq!(s.action_tickets.len(), 0);
    assert_eq!(last_event(&s), ("settings".into(), "".into(), "saved".into()));
}

#[test]
fn status_reports_what_the_watch_sees() {
    let mut s = fresh_state(Config::default());
    let empty = s.status(civil(20), 0);
    assert!(empty.enabled);
    assert!(empty.foreground.is_none());
    assert_eq!(empty.haystack, "");
    assert_eq!(empty.usage.state, UsageState::Disabled);
    assert_eq!(empty.usage.local_date, "2026-09-20");

    s.poll(Some(short(7)), civil(20), S);
    let st = s.status(civil(20), 2 * S);
    assert_eq!(st.foreground.unwrap().hwnd, 7);
    assert_eq!(st.haystack, "youtube.com/shorts/abc | a short - youtube | chrome");
    assert_eq!(st.matched.as_deref(), Some("YouTube Shorts"));
    assert_eq!(st.remaining_ns, 6 * S);
    assert_eq!(st.trail.len(), 1);
    assert!(!st.snoozing);
    assert_eq!(st.snooze_seconds_left, 0);
}

#[test]
fn nag_mode_busts_without_a_ticket() {
    let mut cfg = Config::default();
    cfg.mode = EnforcementMode::Nag;
    let mut s = fresh_state(cfg);
    s.poll(Some(short(7)), civil(20), 0);
    match s.poll(Some(short(7)), civil(20), 6 * S).signal {
        Signal::Bust { mode, ticket, .. } => {
            assert_eq!(mode, EnforcementMode::Nag);
            assert!(ticket.is_none());
        }
        other => panic!("unexpected {:?}", other),
    }
    // nothing was watched while snoozed, and nothing busts
    let mut s = fresh_state(Config::default());
    s.snooze(Some(1), 0);
    assert!(matches!(s.poll(Some(short(7)), civil(20), 0).signal, Signal::Status { watching: false, .. }));
    assert!(matches!(s.poll(Some(short(7)), civil(20), 30 * S).signal, Signal::Status { watching: false, .. }));
}

#[test]
fn the_switch_and_a_rule_reset_keep_settings_valid() {
    let mut s = fresh_state(Config::default());
    assert!(s.cfg.validate().is_empty());
    s.toggle_enabled();
    assert!(s.cfg.validate().is_empty());
    s.cfg.rules[0].label = "Shorts, renamed".into();
    s.reset_rules();
    assert!(s.cfg.validate().is_empty());
    assert_eq!(s.cfg.rules[0].label, "YouTube Shorts");
}
