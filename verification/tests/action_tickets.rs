use badkat::action_tickets::ActionTickets;
use badkat::config::{Config, Rule, RuleAction};
use badkat::win::Snapshot;

const SECOND: u64 = 1_000_000_000;
const MAX_TICKETS: usize = 32;
const EXPIRY_GRACE: u64 = 15 * SECOND;

fn snap(hwnd: isize, pid: u32, url: &str, title: &str) -> Snapshot {
    Snapshot {
        hwnd,
        pid,
        proc: "chrome".into(),
        title: title.into(),
        url: url.into(),
    }
}

fn shorts_rule(cfg: &Config) -> Rule {
    cfg.rules
        .iter()
        .find(|rule| rule.id == "youtube-shorts")
        .unwrap()
        .clone()
}

fn now() -> u64 {
    100 * SECOND
}

fn fresh(n: u32) -> Option<String> {
    Some(format!("{{3F2504E0-4F89-11D3-9A0C-0305E82C{n:04}}}"))
}

#[test]
fn valid_ticket_authorizes_the_stored_action_once() {
    let cfg = Config::default();
    let rule = shorts_rule(&cfg);
    let target = snap(7, 42, "youtube.com/shorts/abc", "A Short - YouTube");
    let now = now();
    let mut tickets = ActionTickets::default();
    let id = tickets
        .issue(&target, &rule, RuleAction::Tab, 3 * SECOND, now, fresh(1))
        .unwrap();

    let authorized = tickets.authorize(&id, &target, &cfg, now).unwrap();
    assert_eq!(authorized.action, RuleAction::Tab);
    assert_eq!(authorized.target.hwnd, 7);
    assert!(tickets.authorize(&id, &target, &cfg, now).is_err());
}

#[test]
fn changed_window_or_process_is_rejected() {
    let cfg = Config::default();
    let rule = shorts_rule(&cfg);
    let target = snap(7, 42, "youtube.com/shorts/abc", "A Short - YouTube");
    let now = now();

    for fresh_snap in [
        snap(8, 42, "youtube.com/shorts/abc", "A Short - YouTube"),
        snap(7, 99, "youtube.com/shorts/abc", "A Short - YouTube"),
        Snapshot {
            proc: "firefox".into(),
            ..target.clone()
        },
    ] {
        let mut tickets = ActionTickets::default();
        let id = tickets
            .issue(&target, &rule, RuleAction::Tab, 0, now, fresh(1))
            .unwrap();
        assert!(tickets.authorize(&id, &fresh_snap, &cfg, now).is_err());
    }
}

#[test]
fn changed_or_unreadable_url_is_rejected_for_url_rule() {
    let cfg = Config::default();
    let rule = shorts_rule(&cfg);
    let target = snap(7, 42, "youtube.com/shorts/abc", "A Short - YouTube");
    let now = now();

    for url in ["youtube.com/watch?v=abc", ""] {
        let mut tickets = ActionTickets::default();
        let id = tickets
            .issue(&target, &rule, RuleAction::Tab, 0, now, fresh(1))
            .unwrap();
        let fresh_snap = snap(7, 42, url, "A Short - YouTube");
        assert!(tickets.authorize(&id, &fresh_snap, &cfg, now).is_err());
    }
}

#[test]
fn expired_ticket_is_rejected() {
    let cfg = Config::default();
    let rule = shorts_rule(&cfg);
    let target = snap(7, 42, "youtube.com/shorts/abc", "A Short - YouTube");
    let now = now();
    let mut tickets = ActionTickets::default();
    let id = tickets
        .issue(&target, &rule, RuleAction::Tab, 3 * SECOND, now, fresh(1))
        .unwrap();

    assert!(tickets.authorize(&id, &target, &cfg, now + 19 * SECOND).is_err());
}

#[test]
fn edited_or_disabled_rule_is_rejected() {
    let cfg = Config::default();
    let rule = shorts_rule(&cfg);
    let target = snap(7, 42, "youtube.com/shorts/abc", "A Short - YouTube");
    let now = now();

    let mut disabled = cfg.clone();
    disabled
        .rules
        .iter_mut()
        .find(|candidate| candidate.id == rule.id)
        .unwrap()
        .enabled = false;
    let mut edited = cfg.clone();
    edited
        .rules
        .iter_mut()
        .find(|candidate| candidate.id == rule.id)
        .unwrap()
        .label
        .push_str(" edited");

    for changed in [disabled, edited] {
        let mut tickets = ActionTickets::default();
        let id = tickets
            .issue(&target, &rule, RuleAction::Tab, 0, now, fresh(1))
            .unwrap();
        assert!(tickets.authorize(&id, &target, &changed, now).is_err());
    }
}

#[test]
fn unknown_and_cleared_tickets_are_rejected() {
    let cfg = Config::default();
    let rule = shorts_rule(&cfg);
    let target = snap(7, 42, "youtube.com/shorts/abc", "A Short - YouTube");
    let now = now();
    let mut tickets = ActionTickets::default();

    assert!(tickets.authorize("", &target, &cfg, now).is_err());
    let id = tickets
        .issue(&target, &rule, RuleAction::Tab, 0, now, fresh(1))
        .unwrap();
    tickets.clear();
    assert!(tickets.authorize(&id, &target, &cfg, now).is_err());
}

#[test]
fn ticket_store_is_bounded_and_prunes_expired_entries() {
    let cfg = Config::default();
    let rule = shorts_rule(&cfg);
    let target = snap(7, 42, "youtube.com/shorts/abc", "A Short - YouTube");
    let now = now();
    let mut tickets = ActionTickets::default();

    for n in 0..40 {
        let _ = tickets.issue(&target, &rule, RuleAction::Tab, 0, now, fresh(n));
    }
    assert_eq!(tickets.len(), MAX_TICKETS);

    let _ = tickets.issue(
        &target,
        &rule,
        RuleAction::Tab,
        0,
        now + EXPIRY_GRACE + SECOND,
        fresh(99),
    );
    assert_eq!(tickets.len(), 1);
}

#[test]
fn rejections_give_their_reason() {
    let cfg = Config::default();
    let rule = shorts_rule(&cfg);
    let target = snap(7, 42, "youtube.com/shorts/abc", "A Short - YouTube");
    let now = now();
    let reason = |fresh_snap: &Snapshot, cfg: &Config, at: u64| {
        let mut tickets = ActionTickets::default();
        let id = tickets
            .issue(&target, &rule, RuleAction::Tab, 3 * SECOND, now, fresh(1))
            .unwrap();
        match tickets.authorize(&id, fresh_snap, cfg, at) {
            Ok(_) => "authorized",
            Err(reason) => reason,
        }
    };
    assert_eq!(reason(&target, &cfg, now), "authorized");
    assert_eq!(reason(&target, &cfg, now - 1), "invalid action time");
    assert_eq!(reason(&target, &cfg, now + 18 * SECOND), "unknown or expired action");
    assert_eq!(reason(&target, &cfg, now + 18 * SECOND - 1), "authorized");
    let mut nag = cfg.clone();
    nag.mode = badkat::config::EnforcementMode::Nag;
    assert_eq!(reason(&target, &nag, now), "patrol is not allowed to act");
    assert_eq!(reason(&snap(8, 42, "youtube.com/shorts/abc", "x"), &cfg, now), "window is no longer in front");
    assert_eq!(reason(&snap(7, 42, " ", "A Short - YouTube"), &cfg, now), "address bar could not be verified");
    assert_eq!(
        reason(&snap(7, 42, "youtube.com/watch?v=1", "A Short - YouTube"), &cfg, now),
        "rule changed during countdown"
    );
    assert_eq!(reason(&snap(7, 42, "example.com", "Example"), &cfg, now), "target no longer matches");
    let upper = Snapshot { proc: "CHROME".into(), ..target.clone() };
    assert_eq!(reason(&upper, &cfg, now), "authorized");
}

#[test]
fn without_an_id_no_ticket_is_issued() {
    let cfg = Config::default();
    let rule = shorts_rule(&cfg);
    let target = snap(7, 42, "youtube.com/shorts/abc", "A Short - YouTube");
    let mut tickets = ActionTickets::default();
    assert!(tickets.issue(&target, &rule, RuleAction::Tab, 0, now(), None).is_none());
    assert_eq!(tickets.len(), 0);
}

#[test]
fn one_attempt_spends_every_ticket_with_its_id() {
    let cfg = Config::default();
    let rule = shorts_rule(&cfg);
    let target = snap(7, 42, "youtube.com/shorts/abc", "A Short - YouTube");
    let other = snap(8, 43, "youtube.com/shorts/def", "Another Short - YouTube");
    let mut tickets = ActionTickets::default();
    tickets.issue(&target, &rule, RuleAction::Tab, 3 * SECOND, now(), fresh(1));
    tickets.issue(&other, &rule, RuleAction::Tab, 3 * SECOND, now(), fresh(2));
    tickets.issue(&target, &rule, RuleAction::Tab, 3 * SECOND, now(), fresh(1));
    assert_eq!(tickets.len(), 3);
    // the attempt is judged on the first ticket with the ID; both go
    let authorized = tickets.authorize(&fresh(1).unwrap(), &target, &cfg, now()).unwrap();
    assert_eq!(authorized.target.hwnd, 7);
    assert_eq!(tickets.len(), 1);
    assert!(tickets.authorize(&fresh(1).unwrap(), &target, &cfg, now()).is_err());
    assert!(tickets.authorize(&fresh(2).unwrap(), &other, &cfg, now()).is_ok());
}
