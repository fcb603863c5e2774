use badkat::config::{Config, EnforcementMode, Rule, RuleAction};
use badkat::patrol::{
    bank, level_note, note, pat_allowed, paused, settings_for_action, snooze_end, snoozing, Bust, Earned,
    ProgressView, Sighting, TrailEntry, Watch, COOLDOWN_NS, NANOS_PER_SECOND, PAT_COOLDOWN_NS, TRAIL_MAX,
};
use badkat::progress::Progress;
use badkat::usage::UsageState;
use badkat::win::Snapshot;

fn snap(hwnd: isize, url: &str, title: &str) -> Snapshot {
    Snapshot {
        hwnd,
        pid: 7,
        proc: "chrome".into(),
        title: title.into(),
        url: url.into(),
    }
}

fn shorts_rule(cfg: &Config) -> Rule {
    cfg.rules.iter().find(|r| r.id == "youtube-shorts").unwrap().clone()
}

const S: u64 = NANOS_PER_SECOND;

#[test]
fn trail_keeps_the_last_forty_events() {
    let mut trail: Vec<TrailEntry> = Vec::new();
    for i in 0..45u64 {
        note(&mut trail, "spotted", "rule", &format!("{i}"), i);
    }
    assert_eq!(trail.len(), TRAIL_MAX);
    assert_eq!(trail[0].detail, "5");
    assert_eq!(trail[39].detail, "44");
    assert_eq!(trail[39].at, "+0:44");
    note(&mut trail, "closed", "rule", "", 125);
    assert_eq!(trail[39].at, "+2:05");
    assert_eq!(trail[39].event, "closed");
}

#[test]
fn closes_and_pats_bank_their_xp() {
    let mut p = Progress::default();
    assert_eq!(bank(&mut p, Earned::Close), 0);
    assert_eq!((p.xp, p.closes, p.pats, p.total_xp), (25, 1, 0, 25));
    assert_eq!(bank(&mut p, Earned::Pat), 0);
    assert_eq!((p.xp, p.closes, p.pats, p.total_xp), (30, 1, 1, 30));
    assert_eq!(bank(&mut p, Earned::Close), 1);
    assert_eq!((p.level, p.xp), (2, 5));
    let view = ProgressView::of(&p, 1, 25);
    assert_eq!(view.needed, 65);
    assert_eq!(view.gained, 1);
    assert_eq!(view.awarded, 25);
    assert_eq!(level_note(2), "now level 2");
}

#[test]
fn pats_count_at_most_every_four_seconds() {
    assert!(pat_allowed(None, 0));
    assert!(!pat_allowed(Some(10 * S), 10 * S + PAT_COOLDOWN_NS - 1));
    assert!(pat_allowed(Some(10 * S), 10 * S + PAT_COOLDOWN_NS));
    // a clock that runs backwards never unlocks a pat early
    assert!(!pat_allowed(Some(10 * S), 5 * S));
}

#[test]
fn snooze_and_cooldown_pause_the_watch() {
    let now = 100 * S;
    assert!(snoozing(Some(now + 1), now));
    assert!(!snoozing(Some(now), now));
    assert!(!snoozing(None, now));
    assert!(paused(None, Some(now + COOLDOWN_NS), now));
    assert!(!paused(Some(now - 1), Some(now), now));
    assert_eq!(snooze_end(now, 15), now + 15 * 60 * S);
}

#[test]
fn only_exhausted_allowance_outside_a_snooze_keeps_close_mode() {
    let cfg = Config::default();
    assert_eq!(cfg.mode, EnforcementMode::Close);
    assert_eq!(settings_for_action(&cfg, true, UsageState::Exhausted).mode, EnforcementMode::Nag);
    assert_eq!(settings_for_action(&cfg, false, UsageState::Available).mode, EnforcementMode::Nag);
    assert_eq!(settings_for_action(&cfg, false, UsageState::OutsideSchedule).mode, EnforcementMode::Nag);
    assert_eq!(settings_for_action(&cfg, false, UsageState::Exhausted).mode, EnforcementMode::Close);
    assert_eq!(settings_for_action(&cfg, false, UsageState::Disabled).mode, EnforcementMode::Close);
    assert_eq!(settings_for_action(&cfg, true, UsageState::Disabled).rules, cfg.rules);
}

#[test]
fn a_page_is_busted_once_after_its_grace() {
    let cfg = Config::default();
    let rule = shorts_rule(&cfg);
    let grace = rule.grace;
    let s = snap(42, "youtube.com/shorts/abc", "A Short - YouTube");
    let mut w = Watch::new(0);

    match w.step(&cfg, &s, Some(&rule), false, true, S) {
        Sighting::Tracking { spotted, remaining_ns, bust, .. } => {
            assert!(spotted);
            assert_eq!(remaining_ns, grace * S);
            assert_eq!(bust, Bust::Quiet);
        }
        Sighting::Idle => panic!("expected a match"),
    }
    let over = S + grace * S;
    match w.step(&cfg, &s, Some(&rule), false, true, over) {
        Sighting::Tracking { spotted, remaining_ns, bust, .. } => {
            assert!(!spotted);
            assert_eq!(remaining_ns, 0);
            assert_eq!(bust, Bust::Act(RuleAction::Tab));
        }
        Sighting::Idle => panic!("expected a match"),
    }
    match w.step(&cfg, &s, Some(&rule), false, true, over + S) {
        Sighting::Tracking { bust, .. } => assert_eq!(bust, Bust::Quiet),
        Sighting::Idle => panic!("expected a match"),
    }
    // the next short of the same rule in the same window is a new page
    let next = snap(42, "youtube.com/shorts/def", "Another Short - YouTube");
    match w.step(&cfg, &next, Some(&rule), false, true, over + 2 * S) {
        Sighting::Tracking { spotted, bust, .. } => {
            assert!(!spotted);
            assert_eq!(bust, Bust::Act(RuleAction::Tab));
        }
        Sighting::Idle => panic!("expected a match"),
    }
}

#[test]
fn a_paused_or_held_back_watch_sees_nothing() {
    let cfg = Config::default();
    let rule = shorts_rule(&cfg);
    let s = snap(42, "youtube.com/shorts/abc", "A Short - YouTube");
    let mut w = Watch::new(0);
    assert!(matches!(w.step(&cfg, &s, Some(&rule), true, true, S), Sighting::Idle));
    assert!(matches!(w.step(&cfg, &s, Some(&rule), false, false, S), Sighting::Idle));
    assert_eq!(w.match_id, "");
    assert_eq!(w.last_hwnd, 42);
}

#[test]
fn nag_mode_never_acts() {
    let mut cfg = Config::default();
    cfg.mode = EnforcementMode::Nag;
    let rule = shorts_rule(&cfg);
    let s = snap(-3, "youtube.com/shorts/abc", "A Short - YouTube");
    let mut w = Watch::new(0);
    w.step(&cfg, &s, Some(&rule), false, true, 0);
    match w.step(&cfg, &s, Some(&rule), false, true, rule.grace * S) {
        Sighting::Tracking { bust, .. } => assert_eq!(bust, Bust::Nag),
        Sighting::Idle => panic!("expected a match"),
    }
    assert_eq!(w.match_id, "youtube-shorts|-3");
    assert_eq!(w.pending, "-3|A Short - YouTube|youtube.com/shorts/abc");
    w.lose();
    assert_eq!(w.match_id, "");
    assert_eq!(w.pending, "");
}
