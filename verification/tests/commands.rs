use badkat::commands::{hitbox_placement, link_for, Hitbox, UpdateInfo, PARK_AT, REPO_URL, SITE_URL};
use badkat::config::{config_path, RuleAction, CONFIG_FILE};
use badkat::progress::{progress_path, PROGRESS_FILE};
use badkat::usage::{usage_path, USAGE_FILE};
use badkat::win::{
    close_check, confirm_step, dispatch_result, ConfirmStep, Dispatch, Snapshot, CONFIRM_INTERVAL_MS,
    CONFIRM_WINDOW_NS,
};

#[test]
fn only_the_projects_own_links_open() {
    assert_eq!(link_for("site"), Some(SITE_URL));
    assert_eq!(link_for("repo"), Some(REPO_URL));
    assert_eq!(SITE_URL, "https://badkat.cypherion.tech");
    assert_eq!(REPO_URL, "https://github.com/X-DIABLO-X/badkat");
    assert_eq!(link_for("https://example.com"), None);
    assert_eq!(link_for("Site"), None);
    assert_eq!(link_for(""), None);
}

#[test]
fn the_hitbox_parks_when_the_cat_has_no_size() {
    assert_eq!(PARK_AT, -10_000);
    assert_eq!(hitbox_placement(0, 40, 10, 20, 0, 30), Hitbox::Park);
    assert_eq!(hitbox_placement(0, 40, 10, 20, 30, -1), Hitbox::Park);
    assert_eq!(
        hitbox_placement(-1920, 40, 10, 20, 64, 48),
        Hitbox::Place { x: -1910, y: 60, w: 64, h: 48 }
    );
}

#[test]
fn update_reports_fill_every_field() {
    let none = UpdateInfo::none("0.2.0", "offline".into());
    assert!(!none.available);
    assert_eq!(none.current, "0.2.0");
    assert_eq!(none.version, "");
    assert_eq!(none.error, "offline");
    let found = UpdateInfo::found("0.2.0".into(), "0.3.0".into(), None, Some("2026-09-20".into()));
    assert!(found.available);
    assert_eq!(found.version, "0.3.0");
    assert_eq!(found.notes, "");
    assert_eq!(found.date, "2026-09-20");
    assert_eq!(found.error, "");
}

#[test]
fn files_live_in_the_config_directory() {
    let dir = "settings-dir";
    for (path, name) in [
        (config_path(dir), "config.json"),
        (progress_path(dir), "progress.json"),
        (usage_path(dir), "usage.json"),
    ] {
        assert!(path.starts_with(dir));
        assert!(path.ends_with(name));
        assert_eq!(path.len(), dir.len() + 1 + name.len());
    }
    assert_eq!(config_path("settings/"), "settings/config.json");
    assert_eq!(usage_path(""), "usage.json");
    assert_eq!(CONFIG_FILE, "config.json");
    assert_eq!(PROGRESS_FILE, "progress.json");
    assert_eq!(USAGE_FILE, "usage.json");
}

fn target() -> Snapshot {
    Snapshot {
        hwnd: 7,
        pid: 42,
        proc: "chrome".into(),
        title: "(8) Instagram - Google Chrome".into(),
        url: "instagram.com/reels/x".into(),
    }
}

#[test]
fn acting_needs_the_same_window_in_front() {
    let t = target();
    let gone = close_check(&t, None, "", RuleAction::Tab).unwrap_err();
    assert!(!gone.acted);
    assert_eq!(gone.reason, "window is no longer in front");
    let other = close_check(&t, Some(8), "(8) Instagram - Google Chrome", RuleAction::Tab).unwrap_err();
    assert_eq!(other.reason, "window is no longer in front");
    let moved = close_check(&t, Some(7), "Work - Google Docs", RuleAction::Tab).unwrap_err();
    assert_eq!(moved.reason, "the window moved on");
    // a new unread count is not a new window
    assert_eq!(
        close_check(&t, Some(7), "(9) Instagram - Google Chrome", RuleAction::Tab).unwrap(),
        Dispatch::Keystroke
    );
    assert_eq!(
        close_check(&t, Some(7), "Instagram - Google Chrome", RuleAction::Close).unwrap(),
        Dispatch::CloseMessage
    );
}

#[test]
fn dispatch_results_name_what_was_blocked() {
    let ok = dispatch_result(RuleAction::Tab, true);
    assert!(ok.acted);
    assert_eq!(ok.reason, "tab");
    assert_eq!(dispatch_result(RuleAction::Close, true).reason, "close");
    let blocked = dispatch_result(RuleAction::Tab, false);
    assert!(!blocked.acted);
    assert_eq!(blocked.reason, "the keystroke was blocked");
    assert_eq!(dispatch_result(RuleAction::Close, false).reason, "the close message was blocked");
}

#[test]
fn confirmation_waits_two_seconds_at_most() {
    assert_eq!(CONFIRM_WINDOW_NS, 2_000_000_000);
    assert!(CONFIRM_INTERVAL_MS >= 100);
    let deadline = 5 + CONFIRM_WINDOW_NS;
    assert_eq!(confirm_step(Some(true), 6, deadline), ConfirmStep::Confirmed);
    assert_eq!(confirm_step(Some(true), deadline + 1, deadline), ConfirmStep::Confirmed);
    assert_eq!(confirm_step(Some(false), 6, deadline), ConfirmStep::Wait);
    assert_eq!(confirm_step(None, 6, deadline), ConfirmStep::Wait);
    assert_eq!(confirm_step(None, deadline, deadline), ConfirmStep::GiveUp);
    assert_eq!(confirm_step(Some(false), deadline + 1, deadline), ConfirmStep::GiveUp);
}
