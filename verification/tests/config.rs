use badkat::config::{
    default_rules, load, parse_clock, summarize_issues, Config, EnforcementMode, RuleAction, ValidationIssue,
    SCALE_MAX_BITS,
};
use badkat::storage::{load_json, FileRead, LoadJson};

#[test]
fn version_0_1_1_json_remains_compatible() {
    let cfg = Config::default();
    let (loaded, notes, write_defaults) = load(LoadJson::Primary(cfg.clone()), None);
    assert_eq!(loaded.mode, cfg.mode);
    assert_eq!(loaded.rules, cfg.rules);
    assert!(notes.is_empty());
    assert!(!write_defaults);
}

#[test]
fn invalid_primary_recovers_config_from_backup_with_note() {
    let found = load_json(FileRead::Malformed, FileRead::Parsed(Config::default()));
    let (loaded, notes, _) = load(found, None);
    assert!(loaded.enabled);
    assert!(notes
        .iter()
        .any(|note| note.contains("recovered from its backup")));
}

#[test]
fn valid_configuration_has_no_validation_issues() {
    assert!(Config::default().validate().is_empty());
}

#[test]
fn validation_reports_field_paths_for_invalid_values() {
    let mut cfg = Config::default();
    cfg.countdown_seconds = 31;
    cfg.snooze_minutes = 0;
    cfg.poll_ms = 249;
    cfg.url_poll_ms = 499;
    cfg.cat.scale_bits = f64::NAN.to_bits();
    cfg.cat.speed_bits = 2.1f64.to_bits();
    cfg.rules[0].id = " duplicate ".into();
    cfg.rules[0].label.clear();
    cfg.rules[0].all = vec!["  ".into()];
    cfg.rules[0].any.clear();
    cfg.rules[0].grace = 86_401;
    cfg.rules[1].id = "duplicate".into();

    let paths: Vec<_> = cfg.validate().into_iter().map(|issue| issue.path).collect();
    for expected in [
        "countdownSeconds",
        "snoozeMinutes",
        "pollMs",
        "urlPollMs",
        "cat.scale",
        "cat.speed",
        "rules[0].id",
        "rules[0].label",
        "rules[0].all[0]",
        "rules[0].grace",
        "rules[1].id",
    ] {
        assert!(
            paths.iter().any(|path| path == expected),
            "missing {expected}"
        );
    }
}

#[test]
fn unknown_legacy_enum_value_uses_backup_recovery() {
    // a primary holding {"enabled":true,"mode":"destroy"} does not parse
    let found = load_json(FileRead::Malformed, FileRead::Parsed(Config::default()));
    let (loaded, notes, _) = load(found, None);
    assert_eq!(loaded.mode, EnforcementMode::Close);
    assert!(notes
        .iter()
        .any(|note| note.contains("recovered from its backup")));
}

#[test]
fn semantically_invalid_primary_uses_valid_backup() {
    let mut invalid = Config::default();
    invalid.poll_ms = 1;
    let found = load_json(FileRead::Parsed(invalid), FileRead::Parsed(Config::default()));
    let (loaded, notes, _) = load(found, Some(Config::default()));
    assert_eq!(loaded.poll_ms, 1000);
    assert!(notes.iter().any(|note| note.contains("failed validation")));
}

#[test]
fn typed_values_keep_their_lowercase_names() {
    let cfg = Config::default();
    assert_eq!(cfg.mode.as_str(), "close");
    assert_eq!(cfg.rules[0].action.as_str(), "tab");
    assert_eq!(EnforcementMode::Nag.as_str(), "nag");
    assert_eq!(RuleAction::Close.as_str(), "close");
    assert!(cfg.mode.is_close());
    assert!(!EnforcementMode::Nag.is_close());
    assert_eq!(RuleAction::default(), RuleAction::Tab);
}

#[test]
fn clock_times_are_strict_hh_mm() {
    assert_eq!(parse_clock("09:00"), Some(540));
    assert_eq!(parse_clock("23:59"), Some(1439));
    assert_eq!(parse_clock("00:00"), Some(0));
    assert_eq!(parse_clock("24:00"), None);
    assert_eq!(parse_clock("12:60"), None);
    assert_eq!(parse_clock("9:00"), None);
    assert_eq!(parse_clock("09:0"), None);
    assert_eq!(parse_clock("0900"), None);
    assert_eq!(parse_clock("09:00:00"), None);
    assert_eq!(parse_clock("+9:+5"), None);
    assert_eq!(parse_clock("+9:00"), None);
    assert_eq!(parse_clock("09:+5"), None);
    assert_eq!(parse_clock("22:00"), Some(1320));
    assert_eq!(parse_clock("é:00"), None);
    assert_eq!(parse_clock(""), None);
}

#[test]
fn range_messages_name_the_bounds() {
    let mut cfg = Config::default();
    cfg.snooze_minutes = 0;
    let issues = cfg.validate();
    assert_eq!(
        issues,
        vec![ValidationIssue {
            path: "snoozeMinutes".into(),
            code: "out_of_range".into(),
            message: "Value must be between 1 and 240".into(),
        }]
    );
}

#[test]
fn cat_bounds_are_inclusive_and_reject_non_finite_values() {
    let mut cfg = Config::default();
    cfg.cat.scale_bits = 0.7f64.to_bits();
    cfg.cat.speed_bits = 2.0f64.to_bits();
    assert!(cfg.validate().is_empty());
    assert_eq!(SCALE_MAX_BITS, 2.2f64.to_bits());
    for bad in [f64::INFINITY, f64::NEG_INFINITY, -1.0, 0.0, 0.69, 2.21] {
        cfg.cat.scale_bits = bad.to_bits();
        let issues = cfg.validate();
        assert_eq!(issues.len(), 1, "{bad}");
        assert_eq!(issues[0].path, "cat.scale");
        assert_eq!(issues[0].message, "Value must be between 0.7 and 2.2");
    }
}

#[test]
fn rule_problems_are_reported_per_rule() {
    let mut cfg = Config::default();
    cfg.rules[2].id = "YouTube-Shorts".into();
    cfg.rules[3].label = " Facebook".into();
    cfg.rules[4].any = vec!["snapchat.com ".into()];
    cfg.rules[5].id = "x".repeat(65);
    let issues = cfg.validate();
    let found: Vec<(String, String)> = issues.into_iter().map(|i| (i.path, i.code)).collect();
    assert_eq!(
        found,
        vec![
            ("rules[2].id".to_string(), "duplicate".to_string()),
            ("rules[3].label".to_string(), "not_trimmed".to_string()),
            ("rules[4].any[0]".to_string(), "not_trimmed".to_string()),
            ("rules[5].id".to_string(), "invalid_length".to_string()),
        ]
    );
    let mut empty = Config::default();
    empty.rules.clear();
    let issues = empty.validate();
    assert_eq!(issues.len(), 1);
    assert_eq!(issues[0].path, "rules");
    assert_eq!(issues[0].code, "required");
}

#[test]
fn schedule_needs_days_and_clock_times() {
    let mut cfg = Config::default();
    cfg.schedule.enabled = true;
    cfg.schedule.weekdays.clear();
    cfg.schedule.start = "9am".into();
    let paths: Vec<String> = cfg.validate().into_iter().map(|i| i.path).collect();
    assert_eq!(paths, vec!["schedule.weekdays".to_string(), "schedule.start".to_string()]);
}

#[test]
fn summaries_list_the_first_three_issues() {
    let mut cfg = Config::default();
    cfg.countdown_seconds = 31;
    cfg.snooze_minutes = 0;
    cfg.poll_ms = 1;
    cfg.url_poll_ms = 1;
    let summary = summarize_issues(&cfg.validate());
    assert_eq!(
        summary,
        "countdownSeconds: Value must be between 0 and 30; snoozeMinutes: Value must be between 1 and 240; pollMs: Value must be between 250 and 10000"
    );
    assert_eq!(summarize_issues(&Vec::new()), "");
}

#[test]
fn first_launch_writes_the_defaults() {
    let (cfg, notes, write_defaults) = load(LoadJson::Missing, None);
    assert!(write_defaults);
    assert!(notes.is_empty());
    assert_eq!(cfg.rules, default_rules());
    let (_, notes, write_defaults) = load(
        LoadJson::Invalid { primary: "primary JSON is invalid".into(), backup: None },
        None,
    );
    assert!(!write_defaults);
    assert_eq!(notes, vec!["config.json could not be read (primary JSON is invalid), using defaults".to_string()]);
}

#[test]
fn default_rules_put_the_specific_ones_first() {
    let rules = default_rules();
    let ids: Vec<&str> = rules.iter().map(|r| r.id.as_str()).collect();
    assert_eq!(
        ids,
        [
            "youtube-shorts",
            "instagram-reels",
            "tiktok",
            "facebook-reels",
            "snapchat",
            "streaming",
            "instagram",
            "reddit",
            "youtube-watch"
        ]
    );
    assert_eq!(rules[5].any.len(), 17);
    assert!(rules.iter().all(|r| r.enabled && r.action == RuleAction::Tab && r.all.is_empty()));
}

#[test]
fn whatever_is_loaded_passes_validation() {
    let mut bad = Config::default();
    bad.countdown_seconds = 1000;
    let mut worse = Config::default();
    worse.rules.clear();
    let cases = vec![
        load(LoadJson::Primary(bad.clone()), Some(worse.clone())),
        load(LoadJson::Primary(bad.clone()), None),
        load(LoadJson::Backup(worse.clone()), None),
        load(LoadJson::Missing, None),
        load(LoadJson::Invalid { primary: "bad".into(), backup: None }, None),
        load(LoadJson::Primary(Config::default()), None),
    ];
    for (cfg, _, _) in cases {
        assert!(cfg.validate().is_empty());
    }
}
