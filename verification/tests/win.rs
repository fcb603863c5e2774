use badkat::config::{Config, RuleAction};
use badkat::win::{
    confirmation_outcome, confirmation_result, is_browser, pick_bar_by_name, pick_bar_by_value,
    process_name_from_path, strip_notification_prefix, title_still_matches, Snapshot, UrlReader,
};

#[test]
fn drops_a_leading_unread_badge() {
    assert_eq!(
        strip_notification_prefix("(8) Instagram - Google Chrome"),
        "Instagram - Google Chrome"
    );
    assert_eq!(
        strip_notification_prefix("(127) WhatsApp - Brave"),
        "WhatsApp - Brave"
    );
}

#[test]
fn a_badge_change_no_longer_looks_like_a_new_window() {
    assert_eq!(
        strip_notification_prefix("(8) Instagram - Google Chrome"),
        strip_notification_prefix("(9) Instagram - Google Chrome")
    );
}

#[test]
fn leaves_ordinary_titles_alone() {
    assert_eq!(
        strip_notification_prefix("Instagram - Google Chrome"),
        "Instagram - Google Chrome"
    );
    // parenthesised but not a count: not a badge, leave it
    assert_eq!(
        strip_notification_prefix("(Draft) Report - Word"),
        "(Draft) Report - Word"
    );
}

fn target(url: &str) -> Snapshot {
    Snapshot {
        hwnd: 7,
        pid: 42,
        proc: "chrome".into(),
        title: "A Short - YouTube".into(),
        url: url.into(),
    }
}

#[test]
fn missing_or_reused_window_confirms_the_original_is_gone() {
    let cfg = Config::default();
    let rule = cfg.rules[0].clone();
    let original = target("youtube.com/shorts/abc");
    assert_eq!(
        confirmation_result(RuleAction::Close, &original, &rule, true, None),
        Some(true)
    );

    let mut reused = original.clone();
    reused.pid = 99;
    assert_eq!(
        confirmation_result(RuleAction::Close, &original, &rule, true, Some(&reused)),
        Some(true)
    );
}

#[test]
fn tab_requires_the_original_rule_to_stop_matching() {
    let cfg = Config::default();
    let rule = cfg.rules[0].clone();
    let original = target("youtube.com/shorts/abc");
    assert_eq!(
        confirmation_result(RuleAction::Tab, &original, &rule, true, Some(&original)),
        Some(false)
    );

    let changed = target("youtube.com/watch?v=abc");
    assert_eq!(
        confirmation_result(RuleAction::Tab, &original, &rule, true, Some(&changed)),
        Some(true)
    );
}

#[test]
fn unreadable_required_url_is_inconclusive() {
    let cfg = Config::default();
    let rule = cfg.rules[0].clone();
    let original = target("youtube.com/shorts/abc");
    let unreadable = target("");
    assert_eq!(
        confirmation_result(RuleAction::Tab, &original, &rule, true, Some(&unreadable)),
        None
    );
}

#[test]
fn badges_surrounded_by_spaces_and_odd_parentheses() {
    assert_eq!(strip_notification_prefix("   (3)   Inbox"), "Inbox");
    assert_eq!(strip_notification_prefix("() Inbox"), "() Inbox");
    assert_eq!(strip_notification_prefix("(12 Inbox"), "(12 Inbox");
    assert_eq!(strip_notification_prefix("  plain"), "plain");
    assert_eq!(strip_notification_prefix(""), "");
}

#[test]
fn browsers_are_recognised_by_process_name() {
    assert!(is_browser("chrome"));
    assert!(is_browser("MSEdge"));
    assert!(is_browser("opera_gx"));
    assert!(!is_browser("Code"));
    assert!(!is_browser("chrome.exe"));
}

#[test]
fn a_window_that_moved_on_is_not_closed() {
    assert!(title_still_matches("(9) Instagram - Google Chrome", "(8) Instagram - Google Chrome"));
    assert!(!title_still_matches("Report - Word", "A Short - YouTube"));
    assert!(title_still_matches("anything", ""));
    let long = "A very long video title that keeps going on - YouTube - Google Chrome";
    assert!(title_still_matches(&format!("New tab - {long}"), long));
    assert!(!title_still_matches("YouTube - Google Chrome", long));
}

#[test]
fn a_close_action_on_the_same_window_is_not_confirmed() {
    let cfg = Config::default();
    let rule = cfg.rules[0].clone();
    let original = target("youtube.com/shorts/abc");
    let mut other_process = original.clone();
    other_process.proc = "firefox".into();
    assert_eq!(
        confirmation_result(RuleAction::Close, &original, &rule, true, Some(&original)),
        Some(false)
    );
    assert_eq!(
        confirmation_result(RuleAction::Tab, &original, &rule, true, Some(&other_process)),
        Some(true)
    );
    let mut no_process = original.clone();
    no_process.proc = " ".into();
    assert_eq!(
        confirmation_result(RuleAction::Tab, &original, &rule, true, Some(&no_process)),
        None
    );
}

#[test]
fn confirmation_results_name_the_action() {
    let ok = confirmation_outcome(true, RuleAction::Tab);
    assert!(ok.acted);
    assert_eq!(ok.reason, "tab");
    let no = confirmation_outcome(false, RuleAction::Close);
    assert!(!no.acted);
    assert_eq!(no.reason, "the target did not close");
}

#[test]
fn process_names_are_file_names_without_exe() {
    assert_eq!(
        process_name_from_path("C:\\Program Files\\Google\\Chrome\\Application\\chrome.exe"),
        "chrome"
    );
    assert_eq!(process_name_from_path("C:/Apps/FIREFOX.EXE"), "FIREFOX");
    assert_eq!(process_name_from_path("tool.exe.exe"), "tool");
    assert_eq!(process_name_from_path("odd.Exe"), "odd.Exe");
    assert_eq!(process_name_from_path("C:\\dir\\"), "");
    assert_eq!(process_name_from_path(""), "");
    assert!(is_browser(&process_name_from_path("C:\\x\\msedge.exe")));
}

#[test]
fn the_address_bar_is_found_by_name_then_by_value() {
    let names = vec![None, Some("Search".to_string()), Some("Address and search bar".to_string())];
    assert_eq!(pick_bar_by_name(&names), Some(2));
    let firefox = vec![Some("Search with Google or enter ADDRESS".to_string())];
    assert_eq!(pick_bar_by_name(&firefox), Some(0));
    assert_eq!(pick_bar_by_name(&vec![Some("Find".to_string()), None]), None);

    let values = vec![None, Some("hello".to_string()), Some("https//x".to_string()), Some("a.b".to_string())];
    assert_eq!(pick_bar_by_value(&values), Some(2));
    assert_eq!(pick_bar_by_value(&vec![Some("htt".to_string()), Some("x.y".to_string())]), Some(1));
    assert_eq!(pick_bar_by_value(&vec![Some("plain".to_string())]), None);
}

#[test]
fn the_url_reader_reuses_fresh_reads_of_the_same_window() {
    let mut reader: UrlReader<u32> = UrlReader::new();
    assert_eq!(reader.fresh_url(5, 0, 1_500), None);
    assert_eq!(reader.bar_for(5), None);
    reader.remember_bar(5, Some(77));
    assert_eq!(reader.bar_for(5), Some(&77));
    assert_eq!(reader.bar_for(6), None);
    assert_eq!(reader.record_read("youtube.com/shorts/x".into(), 1_000), "youtube.com/shorts/x");
    assert_eq!(reader.fresh_url(5, 2_000, 1_500).as_deref(), Some("youtube.com/shorts/x"));
    assert_eq!(reader.fresh_url(5, 2_500, 1_500), None);
    assert_eq!(reader.fresh_url(6, 2_000, 1_500), None);
    // an empty read drops the stale bar
    reader.record_read(String::new(), 3_000);
    assert_eq!(reader.bar_for(5), None);
    reader.remember_bar(5, Some(78));
    reader.forget();
    assert_eq!(reader.bar_for(5), None);
    assert_eq!(reader.last_url, "");
    assert_eq!(reader.cached_for, 0);
}
