use badkat::config::{Config, Rule, RuleAction};
use badkat::rules::{action_for, haystack, matches_rule, requires_url};
use badkat::win::Snapshot;

fn snap(url: &str, title: &str, proc: &str) -> Snapshot {
    Snapshot {
        hwnd: 1,
        pid: 1,
        proc: proc.into(),
        title: title.into(),
        url: url.into(),
    }
}

#[test]
fn reels_are_only_visible_in_the_url() {
    let cfg = Config::default();
    // the title says nothing but "Instagram"
    let s = snap("instagram.com/reels/Dcq3rV9B6gh/", "(8) Instagram", "chrome");
    assert_eq!(badkat::rules::matches(&cfg, &s).unwrap().id, "instagram-reels");
}

#[test]
fn fullscreen_video_has_no_url_so_the_title_carries_it() {
    let cfg = Config::default();
    let s = snap("", "Crunchyroll - Season 3 Ordeals", "msedge");
    assert_eq!(badkat::rules::matches(&cfg, &s).unwrap().id, "streaming");
}

#[test]
fn shorts_beat_the_long_youtube_leash() {
    let cfg = Config::default();
    let s = snap("youtube.com/shorts/xyz", "Some Short - YouTube", "chrome");
    assert_eq!(badkat::rules::matches(&cfg, &s).unwrap().id, "youtube-shorts");
    let s = snap("youtube.com/watch?v=abc", "A Talk - YouTube", "chrome");
    assert_eq!(badkat::rules::matches(&cfg, &s).unwrap().grace, 240);
}

#[test]
fn dms_are_not_reels() {
    let cfg = Config::default();
    let s = snap("instagram.com/direct/inbox/", "Instagram", "chrome");
    assert_eq!(badkat::rules::matches(&cfg, &s).unwrap().id, "instagram");
}

#[test]
fn work_is_left_alone() {
    let cfg = Config::default();
    assert!(badkat::rules::matches(&cfg, &snap("github.com/greensock/GSAP", "GSAP", "chrome")).is_none());
    assert!(badkat::rules::matches(&cfg, &snap("", "badkat - Visual Studio Code", "Code")).is_none());
}

#[test]
fn never_list_wins() {
    let mut cfg = Config::default();
    cfg.never.push("standup".into());
    let s = snap("tiktok.com", "standup notes", "chrome");
    assert!(badkat::rules::matches(&cfg, &s).is_none());
}

#[test]
fn disabled_rules_are_skipped() {
    let mut cfg = Config::default();
    for r in cfg.rules.iter_mut() {
        if r.id == "tiktok" {
            r.enabled = false;
        }
    }
    assert!(badkat::rules::matches(&cfg, &snap("tiktok.com/foryou", "TikTok", "chrome")).is_none());
}

#[test]
fn the_haystack_is_url_title_and_process_in_lowercase() {
    let s = snap("YouTube.com/Shorts", "A Short", "Chrome");
    assert_eq!(haystack(&s), "youtube.com/shorts | a short | chrome");
}

#[test]
fn patrol_off_or_an_empty_window_matches_nothing() {
    let mut cfg = Config::default();
    assert!(badkat::rules::matches(&cfg, &snap("", "", "chrome")).is_none());
    cfg.enabled = false;
    assert!(badkat::rules::matches(&cfg, &snap("tiktok.com", "TikTok", "chrome")).is_none());
}

fn rule(all: &[&str], any: &[&str]) -> Rule {
    Rule {
        id: "r".into(),
        label: "R".into(),
        all: all.iter().map(|s| s.to_string()).collect(),
        any: any.iter().map(|s| s.to_string()).collect(),
        grace: 5,
        action: RuleAction::Tab,
        enabled: true,
    }
}

#[test]
fn all_patterns_must_appear_and_one_of_any() {
    let s = snap("example.com/feed", "Feed", "chrome");
    assert!(matches_rule(&rule(&["example.com", " FEED "], &[]), &s));
    assert!(!matches_rule(&rule(&["example.com", "inbox"], &[]), &s));
    assert!(matches_rule(&rule(&["example.com"], &["inbox", "feed"]), &s));
    assert!(!matches_rule(&rule(&["example.com"], &["inbox"]), &s));
    assert!(!matches_rule(&rule(&[], &[]), &s));
}

#[test]
fn url_dependence_is_remembered() {
    let cfg = Config::default();
    let shorts = cfg.rules[0].clone();
    assert!(requires_url(&shorts, &snap("youtube.com/shorts/abc", "A Short - YouTube", "chrome")));
    let streaming = cfg.rules[5].clone();
    assert!(!requires_url(&streaming, &snap("netflix.com/watch", "Netflix", "chrome")));
    assert!(!requires_url(&shorts, &snap("", "A Short - YouTube", "chrome")));
}

#[test]
fn desktop_apps_get_a_window_close() {
    let r = rule(&["x"], &[]);
    assert_eq!(action_for(&r, &snap("x", "x", "chrome")), RuleAction::Tab);
    assert_eq!(action_for(&r, &snap("", "x", "Spotify")), RuleAction::Close);
    let mut closing = r.clone();
    closing.action = RuleAction::Close;
    assert_eq!(action_for(&closing, &snap("x", "x", "chrome")), RuleAction::Close);
}
