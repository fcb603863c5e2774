//! Settings, their defaults, and the rules they must obey.
//!
//! The cat's two size/speed numbers are binary64 values in the settings
//! file. Here they are carried as their IEEE-754 bit patterns: for the
//! positive bounds used by validation, a value is finite and within the
//! bounds exactly when its bit pattern lies between the bounds' patterns.

use vstd::prelude::*;
use crate::storage::{ends_with, failure_detail, failure_detail_text, join_path, note3, opt_text, placed_in, verbatim, LoadJson};
use crate::progress::notes_view;
use crate::text::{
    chars_of, decimal, is_ws, lower, lower_char, lower_vec, push_decimal, push_str, trim, trim_end,
    trim_start, trim_vec, utf8_len, utf8_len_capped,
};

verus! {

#[derive(Debug, Clone, Copy, PartialEq, Eq, Structural)]
pub enum EnforcementMode {
    Close,
    Nag,
}

pub open spec fn mode_text(m: EnforcementMode) -> Seq<char> {
    match m {
        EnforcementMode::Close => "close"@,
        EnforcementMode::Nag => "nag"@,
    }
}

impl EnforcementMode {
    pub fn is_close(self) -> (r: bool)
        ensures
            r == (self == EnforcementMode::Close),
    {
        self == EnforcementMode::Close
    }

    pub fn as_str(self) -> (s: &'static str)
        ensures
            s@ == mode_text(self),
    {
        match self {
            EnforcementMode::Close => "close",
            EnforcementMode::Nag => "nag",
        }
    }
}

#[derive(Debug, Clone, Copy, PartialEq, Eq, Structural)]
pub enum RuleAction {
    Tab,
    Close,
}

pub open spec fn action_text(a: RuleAction) -> Seq<char> {
    match a {
        RuleAction::Tab => "tab"@,
        RuleAction::Close => "close"@,
    }
}

impl Default for RuleAction {
    fn default() -> (r: Self)
        ensures
            r == RuleAction::Tab,
    {
        RuleAction::Tab
    }
}

impl RuleAction {
    pub fn as_str(self) -> (s: &'static str)
        ensures
            s@ == action_text(self),
    {
        match self {
            RuleAction::Tab => "tab",
            RuleAction::Close => "close",
        }
    }
}

#[derive(Debug, Clone, Copy, PartialEq, Eq, Hash, Structural)]
pub enum Weekday {
    Mon,
    Tue,
    Wed,
    Thu,
    Fri,
    Sat,
    Sun,
}

#[derive(Debug, Clone, Copy, PartialEq, Eq, Structural)]
pub struct DailyAllowanceConfig {
    pub enabled: bool,
    pub minutes: u64,
}

impl Default for DailyAllowanceConfig {
    fn default() -> (r: Self)
        ensures
            r == (DailyAllowanceConfig { enabled: false, minutes: 30 }),
    {
        DailyAllowanceConfig { enabled: false, minutes: 30 }
    }
}

#[derive(Debug)]
pub struct PatrolScheduleConfig {
    pub enabled: bool,
    pub weekdays: Vec<Weekday>,
    pub start: String,
    pub end: String,
}

pub struct ScheduleView {
    pub enabled: bool,
    pub weekdays: Seq<Weekday>,
    pub start: Seq<char>,
    pub end: Seq<char>,
}

impl View for PatrolScheduleConfig {
    type V = ScheduleView;

    open spec fn view(&self) -> ScheduleView {
        ScheduleView {
            enabled: self.enabled,
            weekdays: self.weekdays@,
            start: self.start@,
            end: self.end@,
        }
    }
}

pub open spec fn all_weekdays() -> Seq<Weekday> {
    seq![
        Weekday::Mon,
        Weekday::Tue,
        Weekday::Wed,
        Weekday::Thu,
        Weekday::Fri,
        Weekday::Sat,
        Weekday::Sun,
    ]
}

impl Default for PatrolScheduleConfig {
    fn default() -> (r: Self)
        ensures
            r@ == (ScheduleView {
                enabled: false,
                weekdays: all_weekdays(),
                start: "09:00"@,
                end: "17:00"@,
            }),
    {
        let mut weekdays = Vec::new();
        weekdays.push(Weekday::Mon);
        weekdays.push(Weekday::Tue);
        weekdays.push(Weekday::Wed);
        weekdays.push(Weekday::Thu);
        weekdays.push(Weekday::Fri);
        weekdays.push(Weekday::Sat);
        weekdays.push(Weekday::Sun);
        let r = PatrolScheduleConfig {
            enabled: false,
            weekdays,
            start: String::from_str("09:00"),
            end: String::from_str("17:00"),
        };
        assert(r@.weekdays =~= all_weekdays());
        r
    }
}

impl Clone for PatrolScheduleConfig {
    fn clone(&self) -> (r: Self)
        ensures
            r@ == self@,
    {
        let weekdays = self.weekdays.clone();
        assert(weekdays@ =~= self.weekdays@);
        PatrolScheduleConfig {
            enabled: self.enabled,
            weekdays,
            start: self.start.clone(),
            end: self.end.clone(),
        }
    }
}

/// One problem found by validation, addressed by the field's path.
#[derive(Debug, Clone, PartialEq, Eq)]
pub struct ValidationIssue {
    pub path: String,
    pub code: String,
    pub message: String,
}

pub struct IssueView {
    pub path: Seq<char>,
    pub code: Seq<char>,
    pub message: Seq<char>,
}

impl View for ValidationIssue {
    type V = IssueView;

    open spec fn view(&self) -> IssueView {
        IssueView { path: self.path@, code: self.code@, message: self.message@ }
    }
}

pub open spec fn issues_view(v: Seq<ValidationIssue>) -> Seq<IssueView> {
    v.map_values(|i: ValidationIssue| i@)
}

pub open spec fn mk_issue(path: Seq<char>, code: Seq<char>, message: Seq<char>) -> IssueView {
    IssueView { path, code, message }
}

fn issue(path: String, code: &str, message: &str) -> (r: ValidationIssue)
    ensures
        r@ == mk_issue(path@, code@, message@),
{
    ValidationIssue { path, code: String::from_str(code), message: String::from_str(message) }
}

/// One detection rule.
#[derive(Debug, PartialEq, Eq)]
pub struct Rule {
    pub id: String,
    pub label: String,
    /// every pattern must appear
    pub all: Vec<String>,
    /// at least one pattern must appear
    pub any: Vec<String>,
    /// seconds this rule must hold the foreground before the cat acts
    pub grace: u64,
    pub action: RuleAction,
    pub enabled: bool,
}

pub struct RuleView {
    pub id: Seq<char>,
    pub label: Seq<char>,
    pub all: Seq<Seq<char>>,
    pub any: Seq<Seq<char>>,
    pub grace: u64,
    pub action: RuleAction,
    pub enabled: bool,
}

pub open spec fn strings_view(v: Seq<String>) -> Seq<Seq<char>> {
    v.map_values(|s: String| s@)
}

impl View for Rule {
    type V = RuleView;

    open spec fn view(&self) -> RuleView {
        RuleView {
            id: self.id@,
            label: self.label@,
            all: strings_view(self.all@),
            any: strings_view(self.any@),
            grace: self.grace,
            action: self.action,
            enabled: self.enabled,
        }
    }
}

pub open spec fn rules_view(v: Seq<Rule>) -> Seq<RuleView> {
    v.map_values(|r: Rule| r@)
}

/// A copy of a list of strings.
pub fn copy_strings(v: &Vec<String>) -> (r: Vec<String>)
    ensures
        strings_view(r@) == strings_view(v@),
{
    let r = v.clone();
    assert(strings_view(r@) =~= strings_view(v@));
    r
}

impl Clone for Rule {
    fn clone(&self) -> (r: Self)
        ensures
            r@ == self@,
    {
        Rule {
            id: self.id.clone(),
            label: self.label.clone(),
            all: copy_strings(&self.all),
            any: copy_strings(&self.any),
            grace: self.grace,
            action: self.action,
            enabled: self.enabled,
        }
    }
}

/// The default for a rule's `enabled` flag when the settings file omits it.
pub fn yes() -> (r: bool)
    ensures
        r,
{
    true
}

/// The cat's appearance. `scale_bits` and `speed_bits` are the IEEE-754
/// binary64 bit patterns of the scale (px per design unit) and the speed
/// multiplier.
#[derive(Debug, Clone, Copy, PartialEq, Eq, Structural)]
pub struct CatSettings {
    pub scale_bits: u64,
    pub speed_bits: u64,
    /// wander along the screen edge when idle
    pub wander: bool,
    /// let the cat doze off between wanders
    pub sleepy: bool,
}

/// The bit pattern of 1.25.
pub const SCALE_DEFAULT_BITS: u64 = 0x3FF4_0000_0000_0000;

/// The bit pattern of 1.0.
pub const SPEED_DEFAULT_BITS: u64 = 0x3FF0_0000_0000_0000;

/// The bit pattern of 0.7.
pub const SCALE_MIN_BITS: u64 = 0x3FE6_6666_6666_6666;

/// The bit pattern of 2.2.
pub const SCALE_MAX_BITS: u64 = 0x4001_9999_9999_999A;

/// The bit pattern of 0.5.
pub const SPEED_MIN_BITS: u64 = 0x3FE0_0000_0000_0000;

/// The bit pattern of 2.0.
pub const SPEED_MAX_BITS: u64 = 0x4000_0000_0000_0000;

impl Default for CatSettings {
    fn default() -> (r: Self)
        ensures
            r == (CatSettings {
                scale_bits: SCALE_DEFAULT_BITS,
                speed_bits: SPEED_DEFAULT_BITS,
                wander: true,
                sleepy: true,
            }),
    {
        CatSettings {
            scale_bits: SCALE_DEFAULT_BITS,
            speed_bits: SPEED_DEFAULT_BITS,
            wander: true,
            sleepy: true,
        }
    }
}

/// Everything the settings window can change.
#[derive(Debug)]
pub struct Config {
    pub enabled: bool,
    /// `close` acts on the window, `nag` only makes the cat cross.
    pub mode: EnforcementMode,
    pub countdown_seconds: u64,
    pub snooze_minutes: u64,
    pub poll_ms: u64,
    /// address-bar reads are the expensive part, so they get their own rate
    pub url_poll_ms: u64,
    /// substrings that are never acted on, whatever else matches
    pub never: Vec<String>,
    pub rules: Vec<Rule>,
    pub cat: CatSettings,
    pub daily_allowance: DailyAllowanceConfig,
    pub schedule: PatrolScheduleConfig,
}

pub struct ConfigView {
    pub enabled: bool,
    pub mode: EnforcementMode,
    pub countdown_seconds: u64,
    pub snooze_minutes: u64,
    pub poll_ms: u64,
    pub url_poll_ms: u64,
    pub never: Seq<Seq<char>>,
    pub rules: Seq<RuleView>,
    pub cat: CatSettings,
    pub daily_allowance: DailyAllowanceConfig,
    pub schedule: ScheduleView,
}

impl View for Config {
    type V = ConfigView;

    open spec fn view(&self) -> ConfigView {
        ConfigView {
            enabled: self.enabled,
            mode: self.mode,
            countdown_seconds: self.countdown_seconds,
            snooze_minutes: self.snooze_minutes,
            poll_ms: self.poll_ms,
            url_poll_ms: self.url_poll_ms,
            never: strings_view(self.never@),
            rules: rules_view(self.rules@),
            cat: self.cat,
            daily_allowance: self.daily_allowance,
            schedule: self.schedule@,
        }
    }
}

/// A copy of a list of rules.
pub fn copy_rules(v: &Vec<Rule>) -> (r: Vec<Rule>)
    ensures
        rules_view(r@) == rules_view(v@),
{
    let mut r: Vec<Rule> = Vec::new();
    let mut i: usize = 0;
    while i < v.len()
        invariant
            i <= v.len(),
            r@.len() == i,
            forall|k: int| 0 <= k < i ==> #[trigger] r@[k]@ == v@[k]@,
        decreases v.len() - i,
    {
        let c = v[i].clone();
        r.push(c);
        i = i + 1;
    }
    assert(rules_view(r@) =~= rules_view(v@));
    r
}

impl Clone for Config {
    fn clone(&self) -> (r: Self)
        ensures
            r@ == self@,
    {
        Config {
            enabled: self.enabled,
            mode: self.mode,
            countdown_seconds: self.countdown_seconds,
            snooze_minutes: self.snooze_minutes,
            poll_ms: self.poll_ms,
            url_poll_ms: self.url_poll_ms,
            never: copy_strings(&self.never),
            rules: copy_rules(&self.rules),
            cat: self.cat,
            daily_allowance: self.daily_allowance,
            schedule: self.schedule.clone(),
        }
    }
}

pub open spec fn default_rule(id: Seq<char>, label: Seq<char>, any: Seq<Seq<char>>, grace: u64) -> RuleView {
    RuleView {
        id,
        label,
        all: Seq::empty(),
        any,
        grace,
        action: RuleAction::Tab,
        enabled: true,
    }
}

/// The rules a fresh installation starts with, in matching order.
pub open spec fn default_rules_view() -> Seq<RuleView> {
    seq![
        default_rule("youtube-shorts"@, "YouTube Shorts"@, seq!["youtube.com/shorts"@], 6),
        default_rule("instagram-reels"@, "Instagram Reels"@, seq!["instagram.com/reel"@], 6),
        default_rule("tiktok"@, "TikTok"@, seq!["tiktok.com"@], 6),
        default_rule(
            "facebook-reels"@,
            "Facebook Reels"@,
            seq!["facebook.com/reel"@, "facebook.com/watch"@, "fb.watch"@],
            10,
        ),
        default_rule("snapchat"@, "Snapchat"@, seq!["snapchat.com"@], 15),
        default_rule(
            "streaming"@,
            "Streaming"@,
            seq![
                "netflix.com"@,
                "netflix"@,
                "primevideo.com"@,
                "prime video"@,
                "hotstar.com"@,
                "hotstar"@,
                "disneyplus.com"@,
                "disney+"@,
                "crunchyroll"@,
                "hulu.com"@,
                "jiocinema"@,
                "sonyliv"@,
                "zee5"@,
                "aha.video"@,
                "mxplayer"@,
                "peacocktv.com"@,
                "tv.apple.com"@,
            ],
            20,
        ),
        default_rule("instagram"@, "Instagram"@, seq!["instagram.com"@], 45),
        default_rule("reddit"@, "Reddit"@, seq!["reddit.com"@], 90),
        default_rule("youtube-watch"@, "YouTube"@, seq!["youtube.com/watch"@, "- youtube"@], 240),
    ]
}

fn push_pattern(v: &mut Vec<String>, p: &str)
    ensures
        strings_view(final(v)@) == strings_view(old(v)@).push(p@),
{
    v.push(String::from_str(p));
    assert(strings_view(final(v)@) =~= strings_view(old(v)@).push(p@));
}

fn default_rule_exec(id: &str, label: &str, any: Vec<String>, grace: u64) -> (r: Rule)
    ensures
        r@ == default_rule(id@, label@, strings_view(any@), grace),
{
    let r = Rule {
        id: String::from_str(id),
        label: String::from_str(label),
        all: Vec::new(),
        any,
        grace,
        action: RuleAction::Tab,
        enabled: true,
    };
    assert(r@.all =~= Seq::<Seq<char>>::empty());
    r
}

fn one_pattern(p: &str) -> (v: Vec<String>)
    ensures
        strings_view(v@) == seq![p@],
{
    let mut v = Vec::new();
    push_pattern(&mut v, p);
    assert(strings_view(v@) =~= seq![p@]);
    v
}

/// Order matters: the first match wins, so the specific rules (shorts,
/// reels) have to sit above the general ones (youtube, instagram) or the
/// long leash would swallow them.
pub fn default_rules() -> (r: Vec<Rule>)
    ensures
        rules_view(r@) == default_rules_view(),
{
    let mut r: Vec<Rule> = Vec::new();
    r.push(default_rule_exec("youtube-shorts", "YouTube Shorts", one_pattern("youtube.com/shorts"), 6));
    r.push(default_rule_exec("instagram-reels", "Instagram Reels", one_pattern("instagram.com/reel"), 6));
    r.push(default_rule_exec("tiktok", "TikTok", one_pattern("tiktok.com"), 6));
    let mut fb = Vec::new();
    push_pattern(&mut fb, "facebook.com/reel");
    push_pattern(&mut fb, "facebook.com/watch");
    push_pattern(&mut fb, "fb.watch");
    assert(strings_view(fb@) =~= seq!["facebook.com/reel"@, "facebook.com/watch"@, "fb.watch"@]);
    r.push(default_rule_exec("facebook-reels", "Facebook Reels", fb, 10));
    r.push(default_rule_exec("snapchat", "Snapchat", one_pattern("snapchat.com"), 15));
    let mut st = Vec::new();
    push_pattern(&mut st, "netflix.com");
    push_pattern(&mut st, "netflix");
    push_pattern(&mut st, "primevideo.com");
    push_pattern(&mut st, "prime video");
    push_pattern(&mut st, "hotstar.com");
    push_pattern(&mut st, "hotstar");
    push_pattern(&mut st, "disneyplus.com");
    push_pattern(&mut st, "disney+");
    push_pattern(&mut st, "crunchyroll");
    push_pattern(&mut st, "hulu.com");
    push_pattern(&mut st, "jiocinema");
    push_pattern(&mut st, "sonyliv");
    push_pattern(&mut st, "zee5");
    push_pattern(&mut st, "aha.video");
    push_pattern(&mut st, "mxplayer");
    push_pattern(&mut st, "peacocktv.com");
    push_pattern(&mut st, "tv.apple.com");
    assert(strings_view(st@) =~= default_rules_view()[5].any);
    r.push(default_rule_exec("streaming", "Streaming", st, 20));
    r.push(default_rule_exec("instagram", "Instagram", one_pattern("instagram.com"), 45));
    r.push(default_rule_exec("reddit", "Reddit", one_pattern("reddit.com"), 90));
    let mut yt = Vec::new();
    push_pattern(&mut yt, "youtube.com/watch");
    push_pattern(&mut yt, "- youtube");
    assert(strings_view(yt@) =~= seq!["youtube.com/watch"@, "- youtube"@]);
    r.push(default_rule_exec("youtube-watch", "YouTube", yt, 240));
    assert(rules_view(r@)[0] == default_rules_view()[0]);
    assert(rules_view(r@)[1] == default_rules_view()[1]);
    assert(rules_view(r@)[2] == default_rules_view()[2]);
    assert(rules_view(r@)[3] == default_rules_view()[3]);
    assert(rules_view(r@)[4] == default_rules_view()[4]);
    assert(rules_view(r@)[5] == default_rules_view()[5]);
    assert(rules_view(r@)[6] == default_rules_view()[6]);
    assert(rules_view(r@)[7] == default_rules_view()[7]);
    assert(rules_view(r@)[8] == default_rules_view()[8]);
    assert(rules_view(r@) =~= default_rules_view());
    r
}

pub open spec fn default_never_view() -> Seq<Seq<char>> {
    seq!["zoom meeting"@, "microsoft teams"@, "google meet"@]
}

pub open spec fn default_config_view() -> ConfigView {
    ConfigView {
        enabled: true,
        mode: EnforcementMode::Close,
        countdown_seconds: 3,
        snooze_minutes: 5,
        poll_ms: 1000,
        url_poll_ms: 1500,
        never: default_never_view(),
        rules: default_rules_view(),
        cat: CatSettings {
            scale_bits: SCALE_DEFAULT_BITS,
            speed_bits: SPEED_DEFAULT_BITS,
            wander: true,
            sleepy: true,
        },
        daily_allowance: DailyAllowanceConfig { enabled: false, minutes: 30 },
        schedule: ScheduleView {
            enabled: false,
            weekdays: all_weekdays(),
            start: "09:00"@,
            end: "17:00"@,
        },
    }
}

impl Default for Config {
    fn default() -> (r: Self)
        ensures
            r@ == default_config_view(),
    {
        let mut never = Vec::new();
        push_pattern(&mut never, "zoom meeting");
        push_pattern(&mut never, "microsoft teams");
        push_pattern(&mut never, "google meet");
        let r = Config {
            enabled: true,
            mode: EnforcementMode::Close,
            countdown_seconds: 3,
            snooze_minutes: 5,
            poll_ms: 1000,
            url_poll_ms: 1500,
            never,
            rules: default_rules(),
            cat: CatSettings::default(),
            daily_allowance: DailyAllowanceConfig::default(),
            schedule: PatrolScheduleConfig::default(),
        };
        assert(r@.never =~= default_never_view());
        r
    }
}


pub open spec fn is_digit(c: char) -> bool {
    '0' <= c && c <= '9'
}

pub open spec fn all_digits(ds: Seq<char>) -> bool {
    forall|i: int| 0 <= i < ds.len() ==> is_digit(#[trigger] ds[i])
}

/// The index of the first occurrence of `c` in `s`.
pub open spec fn first_index(s: Seq<char>, c: char) -> Option<int>
    decreases s.len(),
{
    if s.len() == 0 {
        None
    } else if s[0] == c {
        Some(0)
    } else {
        match first_index(s.drop_first(), c) {
            Some(i) => Some(i + 1),
            None => None,
        }
    }
}

/// The value of an ASCII digit.
pub open spec fn digit_value(c: char) -> int {
    c as int - 48
}

/// A strict `HH:MM` clock reading as minutes after midnight: exactly two
/// ASCII digits, a colon and two ASCII digits, the hour at most 23 and the
/// minute at most 59.
pub open spec fn clock_minutes(s: Seq<char>) -> Option<u16> {
    if s.len() == 5 && is_digit(s[0]) && is_digit(s[1]) && s[2] == ':' && is_digit(s[3]) && is_digit(s[4]) {
        let h = digit_value(s[0]) * 10 + digit_value(s[1]);
        let m = digit_value(s[3]) * 10 + digit_value(s[4]);
        if h <= 23 && m <= 59 {
            Some((h * 60 + m) as u16)
        } else {
            None
        }
    } else {
        None
    }
}

pub proof fn lemma_first_index_found(s: Seq<char>, c: char, i: int)
    requires
        0 <= i < s.len(),
        s[i] == c,
        forall|j: int| 0 <= j < i ==> s[j] != c,
    ensures
        first_index(s, c) == Some(i),
    decreases i,
{
    if i > 0 {
        lemma_first_index_found(s.drop_first(), c, i - 1);
    }
}

pub proof fn lemma_first_index_absent(s: Seq<char>, c: char)
    requires
        forall|j: int| 0 <= j < s.len() ==> s[j] != c,
    ensures
        first_index(s, c) is None,
    decreases s.len(),
{
    if s.len() > 0 {
        lemma_first_index_absent(s.drop_first(), c);
    }
}

fn is_digit_exec(c: char) -> (r: bool)
    ensures
        r == is_digit(c),
{
    '0' <= c && c <= '9'
}

/// Reads a strict `HH:MM` clock time as minutes after midnight.
pub fn parse_clock(value: &str) -> (r: Option<u16>)
    ensures
        r == clock_minutes(value@),
{
    let s = chars_of(value);
    if s.len() != 5 || s[2] != ':' {
        return None;
    }
    if !(is_digit_exec(s[0]) && is_digit_exec(s[1]) && is_digit_exec(s[3]) && is_digit_exec(s[4])) {
        return None;
    }
    let h: u32 = (s[0] as u32 - 48) * 10 + (s[1] as u32 - 48);
    let m: u32 = (s[3] as u32 - 48) * 10 + (s[4] as u32 - 48);
    if h > 23 || m > 59 {
        return None;
    }
    Some((h * 60 + m) as u16)
}


pub open spec fn range_message(lo: nat, hi: nat) -> Seq<char> {
    "Value must be between "@ + decimal(lo) + " and "@ + decimal(hi)
}

/// The issue, if any, for an integer setting outside `lo..=hi`.
pub open spec fn range_issues(path: Seq<char>, v: u64, lo: u64, hi: u64) -> Seq<IssueView> {
    if v < lo || v > hi {
        seq![mk_issue(path, "out_of_range"@, range_message(lo as nat, hi as nat))]
    } else {
        seq![]
    }
}

/// The issue, if any, for a binary64 setting (given by its bit pattern)
/// that is not finite or lies outside bounds given by their bit patterns.
pub open spec fn float_issues(path: Seq<char>, bits: u64, lo: u64, hi: u64, message: Seq<char>) -> Seq<IssueView> {
    if bits < lo || bits > hi {
        seq![mk_issue(path, "out_of_range"@, message)]
    } else {
        seq![]
    }
}

pub open spec fn schedule_issues(s: ScheduleView) -> Seq<IssueView> {
    (if s.enabled && s.weekdays.len() == 0 {
        seq![mk_issue("schedule.weekdays"@, "required"@, "Select at least one scheduled weekday"@)]
    } else {
        seq![]
    }) + (if clock_minutes(s.start) is None {
        seq![mk_issue("schedule.start"@, "invalid_time"@, "Start time must use HH:MM"@)]
    } else {
        seq![]
    }) + (if clock_minutes(s.end) is None {
        seq![mk_issue("schedule.end"@, "invalid_time"@, "End time must use HH:MM"@)]
    } else {
        seq![]
    })
}

pub open spec fn rule_base(i: nat) -> Seq<char> {
    "rules["@ + decimal(i) + "]"@
}

/// A rule ID counts when, trimmed, it is 1 to 64 bytes long.
pub open spec fn id_ok(r: RuleView) -> bool {
    trim(r.id).len() > 0 && utf8_len(trim(r.id)) <= 64
}

/// IDs are compared trimmed and ASCII-lowercased.
pub open spec fn id_key(r: RuleView) -> Seq<char> {
    lower(trim(r.id))
}

pub open spec fn duplicate_before(rules: Seq<RuleView>, i: int) -> bool {
    exists|j: int| 0 <= j < i && id_ok(#[trigger] rules[j]) && id_key(rules[j]) == id_key(rules[i])
}

pub open spec fn id_issues(rules: Seq<RuleView>, i: int) -> Seq<IssueView> {
    let r = rules[i];
    let p = rule_base(i as nat) + ".id"@;
    if !id_ok(r) {
        seq![mk_issue(p, "invalid_length"@, "Rule ID must be 1 to 64 characters"@)]
    } else {
        (if trim(r.id) != r.id {
            seq![mk_issue(p, "not_trimmed"@, "Rule ID must not start or end with whitespace"@)]
        } else {
            seq![]
        }) + (if duplicate_before(rules, i) {
            seq![mk_issue(p, "duplicate"@, "Rule IDs must be unique"@)]
        } else {
            seq![]
        })
    }
}

pub open spec fn label_issues(r: RuleView, i: nat) -> Seq<IssueView> {
    let p = rule_base(i) + ".label"@;
    let t = trim(r.label);
    if t.len() == 0 || utf8_len(t) > 120 {
        seq![mk_issue(p, "invalid_length"@, "Rule name must be 1 to 120 characters"@)]
    } else if t != r.label {
        seq![mk_issue(p, "not_trimmed"@, "Rule name must not start or end with whitespace"@)]
    } else {
        seq![]
    }
}

pub open spec fn pattern_path(base: Seq<char>, field: Seq<char>, k: nat) -> Seq<char> {
    base + "."@ + field + "["@ + decimal(k) + "]"@
}

pub open spec fn one_pattern_issues(base: Seq<char>, field: Seq<char>, k: nat, p: Seq<char>) -> Seq<IssueView> {
    let t = trim(p);
    if t.len() == 0 || utf8_len(t) > 256 {
        seq![mk_issue(pattern_path(base, field, k), "invalid_length"@, "Pattern must be 1 to 256 characters"@)]
    } else if t != p {
        seq![mk_issue(pattern_path(base, field, k), "not_trimmed"@, "Pattern must not start or end with whitespace"@)]
    } else {
        seq![]
    }
}

/// Issues for the first `n` patterns of one pattern list.
pub open spec fn pattern_issues(base: Seq<char>, field: Seq<char>, ps: Seq<Seq<char>>, n: nat) -> Seq<IssueView>
    decreases n,
{
    if n == 0 {
        seq![]
    } else {
        pattern_issues(base, field, ps, (n - 1) as nat) + one_pattern_issues(base, field, (n - 1) as nat, ps[n - 1])
    }
}

/// No pattern of the rule is non-blank.
pub open spec fn all_patterns_blank(r: RuleView) -> bool {
    &&& forall|k: int| 0 <= k < r.all.len() ==> trim(#[trigger] r.all[k]).len() == 0
    &&& forall|k: int| 0 <= k < r.any.len() ==> trim(#[trigger] r.any[k]).len() == 0
}

pub open spec fn rule_issues(rules: Seq<RuleView>, i: int) -> Seq<IssueView> {
    id_issues(rules, i) + rule_tail_issues(rules[i], i as nat)
}

/// The issues of one rule after those of its ID.
pub open spec fn rule_tail_issues(r: RuleView, i: nat) -> Seq<IssueView> {
    let base = rule_base(i);
    label_issues(r, i) + pattern_issues(base, "all"@, r.all, r.all.len())
        + pattern_issues(base, "any"@, r.any, r.any.len()) + (if all_patterns_blank(r) {
        seq![mk_issue(base + ".any"@, "patterns_required"@, "At least one non-empty pattern is required"@)]
    } else {
        seq![]
    }) + range_issues(base + ".grace"@, r.grace, 0, 86400)
}

/// Issues for the first `n` rules.
pub open spec fn rules_issues(rules: Seq<RuleView>, n: nat) -> Seq<IssueView>
    decreases n,
{
    if n == 0 {
        seq![]
    } else {
        rules_issues(rules, (n - 1) as nat) + rule_issues(rules, n - 1)
    }
}

/// Every validation issue of a configuration, in report order.
pub open spec fn config_issues(c: ConfigView) -> Seq<IssueView> {
    range_issues("countdownSeconds"@, c.countdown_seconds, 0, 30)
        + range_issues("snoozeMinutes"@, c.snooze_minutes, 1, 240)
        + range_issues("pollMs"@, c.poll_ms, 250, 10000)
        + range_issues("urlPollMs"@, c.url_poll_ms, 500, 10000)
        + float_issues("cat.scale"@, c.cat.scale_bits, SCALE_MIN_BITS, SCALE_MAX_BITS, "Value must be between 0.7 and 2.2"@)
        + float_issues("cat.speed"@, c.cat.speed_bits, SPEED_MIN_BITS, SPEED_MAX_BITS, "Value must be between 0.5 and 2"@)
        + range_issues("dailyAllowance.minutes"@, c.daily_allowance.minutes, 0, 1440)
        + schedule_issues(c.schedule)
        + rules_issues(c.rules, c.rules.len())
        + (if c.rules.len() == 0 {
        seq![mk_issue("rules"@, "required"@, "At least one rule is required"@)]
    } else {
        seq![]
    })
}

proof fn lemma_issues_push(v: Seq<ValidationIssue>, x: ValidationIssue)
    ensures
        issues_view(v.push(x)) == issues_view(v).push(x@),
{
    assert(issues_view(v.push(x)) =~= issues_view(v).push(x@));
}

fn push_issue(issues: &mut Vec<ValidationIssue>, x: ValidationIssue)
    ensures
        issues_view(final(issues)@) == issues_view(old(issues)@) + seq![x@],
{
    let ghost before = issues@;
    issues.push(x);
    proof {
        lemma_issues_push(before, x);
    }
    assert(issues_view(before).push(x@) =~= issues_view(before) + seq![x@]);
}

fn range_message_exec(minimum: u64, maximum: u64) -> (r: String)
    ensures
        r@ == range_message(minimum as nat, maximum as nat),
{
    let mut m = String::new();
    push_str(&mut m, "Value must be between ");
    push_decimal(&mut m, minimum);
    push_str(&mut m, " and ");
    push_decimal(&mut m, maximum);
    assert(m@ =~= range_message(minimum as nat, maximum as nat));
    m
}

fn check_range(issues: &mut Vec<ValidationIssue>, path: String, value: u64, minimum: u64, maximum: u64)
    ensures
        issues_view(final(issues)@) == issues_view(old(issues)@) + range_issues(path@, value, minimum, maximum),
{
    if value < minimum || value > maximum {
        let message = range_message_exec(minimum, maximum);
        let x = ValidationIssue { path, code: String::from_str("out_of_range"), message };
        push_issue(issues, x);
    } else {
        assert(issues_view(issues@) =~= issues_view(issues@) + seq![]);
    }
}

fn check_float(issues: &mut Vec<ValidationIssue>, path: &str, bits: u64, minimum: u64, maximum: u64, message: &str)
    ensures
        issues_view(final(issues)@) == issues_view(old(issues)@) + float_issues(path@, bits, minimum, maximum, message@),
{
    if bits < minimum || bits > maximum {
        push_issue(issues, issue(String::from_str(path), "out_of_range", message));
    } else {
        assert(issues_view(issues@) =~= issues_view(issues@) + seq![]);
    }
}

/// Whether two character buffers hold the same characters.
pub fn same_chars(a: &Vec<char>, b: &Vec<char>) -> (r: bool)
    ensures
        r == (a@ == b@),
{
    if a.len() != b.len() {
        return false;
    }
    let mut i: usize = 0;
    while i < a.len()
        invariant
            i <= a.len() == b.len(),
            forall|k: int| 0 <= k < i ==> a@[k] == b@[k],
        decreases a.len() - i,
    {
        if a[i] != b[i] {
            return false;
        }
        i = i + 1;
    }
    assert(a@ =~= b@);
    true
}

fn rule_base_exec(index: usize) -> (r: String)
    ensures
        r@ == rule_base(index as nat),
{
    let mut b = String::new();
    push_str(&mut b, "rules[");
    push_decimal(&mut b, index as u64);
    push_str(&mut b, "]");
    assert(b@ =~= rule_base(index as nat));
    b
}

fn joined(base: &String, suffix: &str) -> (r: String)
    ensures
        r@ == base@ + suffix@,
{
    let mut r = base.clone();
    push_str(&mut r, suffix);
    r
}

fn validate_patterns(issues: &mut Vec<ValidationIssue>, base: &String, field: &str, patterns: &Vec<String>)
    ensures
        issues_view(final(issues)@) == issues_view(old(issues)@) + pattern_issues(
            base@,
            field@,
            strings_view(patterns@),
            patterns@.len() as nat,
        ),
{
    let ghost ps = strings_view(patterns@);
    let ghost start = issues_view(issues@);
    let mut index: usize = 0;
    while index < patterns.len()
        invariant
            index <= patterns.len(),
            ps == strings_view(patterns@),
            issues_view(issues@) == start + pattern_issues(base@, field@, ps, index as nat),
        decreases patterns.len() - index,
    {
        let ghost before = issues_view(issues@);
        let pattern = chars_of(patterns[index].as_str());
        assert(pattern@ == ps[index as int]);
        let trimmed = trim_vec(&pattern);
        let problem: Option<(&str, &str)> = if trimmed.len() == 0 || utf8_len_capped(&trimmed, 256) > 256 {
            Some(("invalid_length", "Pattern must be 1 to 256 characters"))
        } else if !same_chars(&trimmed, &pattern) {
            Some(("not_trimmed", "Pattern must not start or end with whitespace"))
        } else {
            None
        };
        match problem {
            Some((code, message)) => {
                let mut path = joined(base, ".");
                push_str(&mut path, field);
                push_str(&mut path, "[");
                push_decimal(&mut path, index as u64);
                push_str(&mut path, "]");
                assert(path@ =~= pattern_path(base@, field@, index as nat));
                push_issue(issues, issue(path, code, message));
            },
            None => {},
        }
        assert(issues_view(issues@) =~= before + one_pattern_issues(base@, field@, index as nat, ps[index as int]));
        index = index + 1;
        assert(issues_view(issues@) =~= start + pattern_issues(base@, field@, ps, index as nat));
    }
}

/// Whether every pattern of the list is blank once trimmed.
fn all_blank(patterns: &Vec<String>) -> (r: bool)
    ensures
        r == (forall|k: int| 0 <= k < patterns@.len() ==> trim(#[trigger] strings_view(patterns@)[k]).len() == 0),
{
    let mut i: usize = 0;
    while i < patterns.len()
        invariant
            i <= patterns.len(),
            forall|k: int| 0 <= k < i ==> trim(#[trigger] strings_view(patterns@)[k]).len() == 0,
        decreases patterns.len() - i,
    {
        let p = chars_of(patterns[i].as_str());
        let t = trim_vec(&p);
        if t.len() != 0 {
            assert(trim(strings_view(patterns@)[i as int]).len() != 0);
            return false;
        }
        i = i + 1;
    }
    true
}

pub open spec fn seen_has(seen: Seq<Vec<char>>, key: Seq<char>) -> bool {
    exists|m: int| 0 <= m < seen.len() && (#[trigger] seen[m])@ == key
}

pub open spec fn key_before(rules: Seq<RuleView>, n: int, key: Seq<char>) -> bool {
    exists|j: int| 0 <= j < n && id_ok(#[trigger] rules[j]) && id_key(rules[j]) == key
}

/// Whether `key` is one of `seen`.
fn seen_contains(seen: &Vec<Vec<char>>, key: &Vec<char>) -> (r: bool)
    ensures
        r == seen_has(seen@, key@),
{
    let mut m: usize = 0;
    while m < seen.len()
        invariant
            m <= seen.len(),
            forall|j: int| 0 <= j < m ==> (#[trigger] seen@[j])@ != key@,
        decreases seen.len() - m,
    {
        if same_chars(&seen[m], key) {
            return true;
        }
        m = m + 1;
    }
    false
}

fn validate_id(
    issues: &mut Vec<ValidationIssue>,
    seen: &mut Vec<Vec<char>>,
    Ghost(rules): Ghost<Seq<RuleView>>,
    index: usize,
    rule: &Rule,
    base: &String,
)
    requires
        index < rules.len(),
        rules[index as int] == rule@,
        base@ == rule_base(index as nat),
        forall|key: Seq<char>| #[trigger] seen_has(old(seen)@, key) <==> key_before(rules, index as int, key),
    ensures
        issues_view(final(issues)@) == issues_view(old(issues)@) + id_issues(rules, index as int),
        forall|key: Seq<char>| #[trigger] seen_has(final(seen)@, key) <==> key_before(rules, index + 1, key),
{
    let ghost before = issues_view(issues@);
    let ghost r = rules[index as int];
    let raw_id = chars_of(rule.id.as_str());
    let id = trim_vec(&raw_id);
    if id.len() == 0 || utf8_len_capped(&id, 64) > 64 {
        push_issue(issues, issue(joined(base, ".id"), "invalid_length", "Rule ID must be 1 to 64 characters"));
        assert(!id_ok(r));
        assert forall|k: Seq<char>| #[trigger] seen_has(seen@, k) <==> key_before(rules, index + 1, k) by {
            if key_before(rules, index + 1, k) {
                let j = choose|j: int| 0 <= j < index + 1 && id_ok(#[trigger] rules[j]) && id_key(rules[j]) == k;
                assert(j < index);
                assert(key_before(rules, index as int, k));
            }
            if key_before(rules, index as int, k) {
                let j = choose|j: int| 0 <= j < index && id_ok(#[trigger] rules[j]) && id_key(rules[j]) == k;
                assert(key_before(rules, index + 1, k));
            }
        }
        assert(issues_view(issues@) =~= before + id_issues(rules, index as int));
        return;
    }
    assert(id_ok(r));
    if !same_chars(&id, &raw_id) {
        push_issue(issues, issue(joined(base, ".id"), "not_trimmed", "Rule ID must not start or end with whitespace"));
    }
    let key = lower_vec(&id);
    assert(key@ == id_key(r));
    let ghost old_seen = seen@;
    if seen_contains(seen, &key) {
        push_issue(issues, issue(joined(base, ".id"), "duplicate", "Rule IDs must be unique"));
        assert(key_before(rules, index as int, key@));
        assert(duplicate_before(rules, index as int));
        assert forall|k: Seq<char>| #[trigger] seen_has(seen@, k) <==> key_before(rules, index + 1, k) by {
            if key_before(rules, index + 1, k) {
                let j2 = choose|j2: int| 0 <= j2 < index + 1 && id_ok(#[trigger] rules[j2]) && id_key(rules[j2]) == k;
                if j2 == index {
                    assert(key_before(rules, index as int, k));
                } else {
                    assert(key_before(rules, index as int, k));
                }
            }
            if key_before(rules, index as int, k) {
                let j2 = choose|j2: int| 0 <= j2 < index && id_ok(#[trigger] rules[j2]) && id_key(rules[j2]) == k;
                assert(key_before(rules, index + 1, k));
            }
        }
    } else {
        assert(!duplicate_before(rules, index as int)) by {
            if duplicate_before(rules, index as int) {
                let j = choose|j: int| 0 <= j < index && id_ok(#[trigger] rules[j]) && id_key(rules[j]) == id_key(rules[index as int]);
                assert(key_before(rules, index as int, key@));
            }
        }
        seen.push(key);
        assert forall|k: Seq<char>| #[trigger] seen_has(seen@, k) implies key_before(rules, index + 1, k) by {
            let m = choose|m: int| 0 <= m < seen@.len() && (#[trigger] seen@[m])@ == k;
            if m < old_seen.len() {
                assert(old_seen[m] == seen@[m]);
                assert(seen_has(old_seen, k));
                let j = choose|j: int| 0 <= j < index && id_ok(#[trigger] rules[j]) && id_key(rules[j]) == k;
            } else {
                assert(id_ok(rules[index as int]));
            }
        }
        assert forall|k: Seq<char>| key_before(rules, index + 1, k) implies #[trigger] seen_has(seen@, k) by {
            let j = choose|j: int| 0 <= j < index + 1 && id_ok(#[trigger] rules[j]) && id_key(rules[j]) == k;
            if j < index {
                assert(key_before(rules, index as int, k));
                assert(seen_has(old_seen, k));
                let m = choose|m: int| 0 <= m < old_seen.len() && (#[trigger] old_seen[m])@ == k;
                assert(seen@[m] == old_seen[m]);
            } else {
                assert(seen@[old_seen.len() as int]@ == k);
            }
        }
    }
    assert(issues_view(issues@) =~= before + id_issues(rules, index as int));
}

fn validate_rule_tail(issues: &mut Vec<ValidationIssue>, index: usize, rule: &Rule, base: &String)
    requires
        base@ == rule_base(index as nat),
    ensures
        issues_view(final(issues)@) == issues_view(old(issues)@) + rule_tail_issues(rule@, index as nat),
{
    let ghost before = issues_view(issues@);
    let ghost r = rule@;
    let raw_label = chars_of(rule.label.as_str());
    let label = trim_vec(&raw_label);
    if label.len() == 0 || utf8_len_capped(&label, 120) > 120 {
        push_issue(issues, issue(joined(base, ".label"), "invalid_length", "Rule name must be 1 to 120 characters"));
    } else if !same_chars(&label, &raw_label) {
        push_issue(issues, issue(joined(base, ".label"), "not_trimmed", "Rule name must not start or end with whitespace"));
    }
    assert(issues_view(issues@) =~= before + label_issues(r, index as nat));
    let ghost after_label = issues_view(issues@);
    validate_patterns(issues, base, "all", &rule.all);
    validate_patterns(issues, base, "any", &rule.any);
    let ghost after_patterns = issues_view(issues@);
    if all_blank(&rule.all) && all_blank(&rule.any) {
        push_issue(issues, issue(joined(base, ".any"), "patterns_required", "At least one non-empty pattern is required"));
    }
    assert(issues_view(issues@) =~= after_patterns + (if all_patterns_blank(r) {
        seq![mk_issue(base@ + ".any"@, "patterns_required"@, "At least one non-empty pattern is required"@)]
    } else {
        seq![]
    }));
    check_range(issues, joined(base, ".grace"), rule.grace, 0, 86_400);
    assert(issues_view(issues@) =~= before + rule_tail_issues(r, index as nat));
}

impl Config {
    /// Every reason this configuration may not be saved or used, each
    /// addressed by the path of the offending field.
    pub fn validate(&self) -> (issues: Vec<ValidationIssue>)
        ensures
            issues_view(issues@) == config_issues(self@),
    {
        let mut issues: Vec<ValidationIssue> = Vec::new();
        check_range(&mut issues, String::from_str("countdownSeconds"), self.countdown_seconds, 0, 30);
        check_range(&mut issues, String::from_str("snoozeMinutes"), self.snooze_minutes, 1, 240);
        check_range(&mut issues, String::from_str("pollMs"), self.poll_ms, 250, 10_000);
        check_range(&mut issues, String::from_str("urlPollMs"), self.url_poll_ms, 500, 10_000);
        check_float(&mut issues, "cat.scale", self.cat.scale_bits, SCALE_MIN_BITS, SCALE_MAX_BITS, "Value must be between 0.7 and 2.2");
        check_float(&mut issues, "cat.speed", self.cat.speed_bits, SPEED_MIN_BITS, SPEED_MAX_BITS, "Value must be between 0.5 and 2");
        check_range(&mut issues, String::from_str("dailyAllowance.minutes"), self.daily_allowance.minutes, 0, 1_440);
        let ghost head = issues_view(issues@);
        if self.schedule.enabled && self.schedule.weekdays.len() == 0 {
            push_issue(&mut issues, issue(String::from_str("schedule.weekdays"), "required", "Select at least one scheduled weekday"));
        }
        if parse_clock(self.schedule.start.as_str()).is_none() {
            push_issue(&mut issues, issue(String::from_str("schedule.start"), "invalid_time", "Start time must use HH:MM"));
        }
        if parse_clock(self.schedule.end.as_str()).is_none() {
            push_issue(&mut issues, issue(String::from_str("schedule.end"), "invalid_time", "End time must use HH:MM"));
        }
        assert(issues_view(issues@) =~= head + schedule_issues(self.schedule@));
        let ghost rules = rules_view(self.rules@);
        let ghost pre = issues_view(issues@);
        let mut seen: Vec<Vec<char>> = Vec::new();
        let mut index: usize = 0;
        while index < self.rules.len()
            invariant
                index <= self.rules.len(),
                rules == rules_view(self.rules@),
                issues_view(issues@) == pre + rules_issues(rules, index as nat),
                forall|key: Seq<char>| #[trigger] seen_has(seen@, key) <==> key_before(rules, index as int, key),
            decreases self.rules.len() - index,
        {
            let ghost before = issues_view(issues@);
            let rule = &self.rules[index];
            assert(rules[index as int] == rule@);
            let base = rule_base_exec(index);
            validate_id(&mut issues, &mut seen, Ghost(rules), index, rule, &base);
            validate_rule_tail(&mut issues, index, rule, &base);
            assert(issues_view(issues@) =~= before + rule_issues(rules, index as int));
            index = index + 1;
            assert(issues_view(issues@) =~= pre + rules_issues(rules, index as nat));
        }
        if self.rules.len() == 0 {
            push_issue(&mut issues, issue(String::from_str("rules"), "required", "At least one rule is required"));
        }
        assert(issues_view(issues@) =~= config_issues(self@));
        issues
    }
}


/// `path: message` for one issue.
pub open spec fn issue_line(i: IssueView) -> Seq<char> {
    i.path + ": "@ + i.message
}

/// The lines joined with "; ".
pub open spec fn join_lines(s: Seq<IssueView>) -> Seq<char>
    decreases s.len(),
{
    if s.len() == 0 {
        Seq::empty()
    } else if s.len() == 1 {
        issue_line(s[0])
    } else {
        join_lines(s.drop_last()) + "; "@ + issue_line(s.last())
    }
}

/// The first three issues as "path: message", joined with "; ".
pub open spec fn summary_text(s: Seq<IssueView>) -> Seq<char> {
    join_lines(if s.len() > 3 {
        s.take(3)
    } else {
        s
    })
}

/// A short account of why a configuration failed validation.
pub fn summarize_issues(issues: &Vec<ValidationIssue>) -> (r: String)
    ensures
        r@ == summary_text(issues_view(issues@)),
{
    let ghost all = issues_view(issues@);
    let n: usize = if issues.len() > 3 {
        3
    } else {
        issues.len()
    };
    let ghost shown = if all.len() > 3 {
        all.take(3)
    } else {
        all
    };
    let mut r = String::new();
    let mut k: usize = 0;
    while k < n
        invariant
            k <= n <= issues.len(),
            n == shown.len(),
            all == issues_view(issues@),
            forall|j: int| 0 <= j < n ==> shown[j] == all[j],
            r@ == join_lines(shown.take(k as int)),
        decreases n - k,
    {
        let ghost before = r@;
        if k > 0 {
            push_str(&mut r, "; ");
        }
        push_str(&mut r, issues[k].path.as_str());
        push_str(&mut r, ": ");
        push_str(&mut r, issues[k].message.as_str());
        assert(shown.take(k + 1).drop_last() =~= shown.take(k as int));
        assert(all[k as int] == issues@[k as int]@);
        k = k + 1;
        assert(r@ =~= join_lines(shown.take(k as int)));
    }
    assert(shown.take(n as int) =~= shown);
    r
}

/// The name of the file in the configuration directory.
pub const CONFIG_FILE: &'static str = "config.json";

/// Where config.json lives in the directory `dir`: `dir` followed by the
/// file name, with a path separator between them unless `dir` already
/// ends with one.
pub fn config_path(dir: &str) -> (r: String)
    ensures
        ends_with(r@, CONFIG_FILE@),
        !verbatim(dir@) ==> placed_in(r@, dir@, CONFIG_FILE@),
{
    proof {
        reveal_strlit("config.json");
        reveal_strlit(".");
        reveal_strlit("..");
        assert(CONFIG_FILE@ == "config.json"@);
    }
    join_path(dir, CONFIG_FILE)
}

/// The settings to start with, the notes to show, and whether the
/// defaults should be written out (a first launch, where no file exists),
/// from what loading `config.json` found and, for a primary that parsed
/// but failed validation, what its backup file holds when read on its own.
pub open spec fn config_load_view(primary: LoadJson<Config>, backup: Option<Config>) -> (
    ConfigView,
    Seq<Seq<char>>,
    bool,
) {
    match primary {
        LoadJson::Primary(cfg) => if config_issues(cfg@).len() == 0 {
            (cfg@, seq![], false)
        } else {
            let reason = summary_text(config_issues(cfg@));
            match backup {
                Some(b) => if config_issues(b@).len() == 0 {
                    (b@, seq!["config.json failed validation ("@ + reason + ") and was recovered from its backup"@], false)
                } else {
                    (default_config_view(), seq!["config.json failed validation ("@ + reason + "), using defaults"@], false)
                },
                None => (default_config_view(), seq!["config.json failed validation ("@ + reason + "), using defaults"@], false),
            }
        },
        LoadJson::Backup(cfg) => if config_issues(cfg@).len() == 0 {
            (cfg@, seq!["config.json was recovered from its backup"@], false)
        } else {
            (
                default_config_view(),
                seq![
                    "recovered config.json failed validation ("@ + summary_text(config_issues(cfg@))
                        + "), using defaults"@,
                ],
                false,
            )
        },
        LoadJson::Missing => (default_config_view(), seq![], true),
        LoadJson::Invalid { primary, backup } => (
            default_config_view(),
            seq![
                "config.json could not be read ("@ + failure_detail_text(primary@, opt_text(backup))
                    + "), using defaults"@,
            ],
            false,
        ),
    }
}

/// Reads the config, repairing what it can rather than refusing to start.
pub fn load(primary: LoadJson<Config>, backup: Option<Config>) -> (r: (Config, Vec<String>, bool))
    ensures
        r.0@ == config_load_view(primary, backup).0,
        notes_view(r.1@) == config_load_view(primary, backup).1,
        r.2 == config_load_view(primary, backup).2,
{
    let ghost p0 = primary;
    let ghost b0 = backup;
    let mut notes: Vec<String> = Vec::new();
    let mut write_defaults = false;
    let cfg = match primary {
        LoadJson::Primary(cfg) => {
            let issues = cfg.validate();
            if issues.len() == 0 {
                cfg
            } else {
                let reason = summarize_issues(&issues);
                match backup {
                    Some(b) => {
                        let bi = b.validate();
                        if bi.len() == 0 {
                            notes.push(note3("config.json failed validation (", &reason, ") and was recovered from its backup"));
                            b
                        } else {
                            notes.push(note3("config.json failed validation (", &reason, "), using defaults"));
                            Config::default()
                        }
                    },
                    None => {
                        notes.push(note3("config.json failed validation (", &reason, "), using defaults"));
                        Config::default()
                    },
                }
            }
        },
        LoadJson::Backup(cfg) => {
            let issues = cfg.validate();
            if issues.len() != 0 {
                let reason = summarize_issues(&issues);
                notes.push(note3("recovered config.json failed validation (", &reason, "), using defaults"));
                Config::default()
            } else {
                notes.push(String::from_str("config.json was recovered from its backup"));
                cfg
            }
        },
        LoadJson::Missing => {
            write_defaults = true;
            Config::default()
        },
        LoadJson::Invalid { primary, backup } => {
            let detail = failure_detail(&primary, &backup);
            notes.push(note3("config.json could not be read (", &detail, "), using defaults"));
            Config::default()
        },
    };
    assert(notes_view(notes@) =~= config_load_view(p0, b0).1);
    (cfg, notes, write_defaults)
}

/// Text with no whitespace at either end.
pub open spec fn trimmed_text(s: Seq<char>) -> bool {
    s.len() > 0 && !is_ws(s[0]) && !is_ws(s[s.len() - 1])
}

/// Trimmed text short enough to stay within `max` bytes even at four
/// bytes a character.
pub open spec fn short_text(s: Seq<char>, max: nat) -> bool {
    trimmed_text(s) && 4 * s.len() <= max
}

proof fn lemma_utf8_len_at_most(s: Seq<char>)
    ensures
        utf8_len(s) <= 4 * s.len(),
    decreases s.len(),
{
    if s.len() > 0 {
        lemma_utf8_len_at_most(s.drop_last());
    }
}

proof fn lemma_short_text(s: Seq<char>, max: nat)
    requires
        short_text(s, max),
    ensures
        trim(s) == s,
        utf8_len(trim(s)) <= max,
{
    assert(trim_start(s) == s);
    assert(trim_end(s) == s);
    lemma_utf8_len_at_most(s);
}

proof fn lemma_patterns_clean(base: Seq<char>, field: Seq<char>, ps: Seq<Seq<char>>, n: nat)
    requires
        n <= ps.len(),
        forall|k: int| 0 <= k < n ==> short_text(#[trigger] ps[k], 256),
    ensures
        pattern_issues(base, field, ps, n) == Seq::<IssueView>::empty(),
    decreases n,
{
    if n > 0 {
        lemma_patterns_clean(base, field, ps, (n - 1) as nat);
        lemma_short_text(ps[n - 1], 256);
        assert(one_pattern_issues(base, field, (n - 1) as nat, ps[n - 1]) == Seq::<IssueView>::empty());
        assert(pattern_issues(base, field, ps, n) =~= Seq::<IssueView>::empty());
    }
}

/// A rule whose name and patterns are short trimmed text, with at least
/// one pattern and a grace within a day, has no issues past its ID.
proof fn lemma_rule_tail_clean(r: RuleView, i: nat)
    requires
        short_text(r.label, 120),
        forall|k: int| 0 <= k < r.all.len() ==> short_text(#[trigger] r.all[k], 256),
        forall|k: int| 0 <= k < r.any.len() ==> short_text(#[trigger] r.any[k], 256),
        r.all.len() > 0 || r.any.len() > 0,
        r.grace <= 86400,
    ensures
        rule_tail_issues(r, i) == Seq::<IssueView>::empty(),
{
    let base = rule_base(i);
    lemma_short_text(r.label, 120);
    lemma_patterns_clean(base, "all"@, r.all, r.all.len());
    lemma_patterns_clean(base, "any"@, r.any, r.any.len());
    if r.any.len() > 0 {
        lemma_short_text(r.any[0], 256);
        assert(trim(r.any[0]).len() > 0);
    } else {
        lemma_short_text(r.all[0], 256);
        assert(trim(r.all[0]).len() > 0);
    }
    assert(!all_patterns_blank(r));
    assert(rule_tail_issues(r, i) =~= Seq::<IssueView>::empty());
}

/// Two trimmed IDs of different lengths or first letters are different
/// IDs, whatever their case.
proof fn lemma_keys_differ(a: RuleView, b: RuleView)
    requires
        trimmed_text(a.id),
        trimmed_text(b.id),
        a.id.len() != b.id.len() || lower_char(a.id[0]) != lower_char(b.id[0]),
    ensures
        id_key(a) != id_key(b),
{
    lemma_short_text(a.id, 4 * a.id.len());
    lemma_short_text(b.id, 4 * b.id.len());
    assert(id_key(a).len() == a.id.len());
    assert(id_key(b).len() == b.id.len());
    if a.id.len() == b.id.len() {
        assert(id_key(a)[0] == lower_char(a.id[0]));
        assert(id_key(b)[0] == lower_char(b.id[0]));
    }
}

/// A rule whose ID is short trimmed text and differs from every earlier
/// one has no ID issues.
proof fn lemma_id_clean(rules: Seq<RuleView>, i: int)
    requires
        0 <= i < rules.len(),
        short_text(rules[i].id, 64),
        !duplicate_before(rules, i),
    ensures
        id_issues(rules, i) == Seq::<IssueView>::empty(),
{
    lemma_short_text(rules[i].id, 64);
    assert(id_issues(rules, i) =~= Seq::<IssueView>::empty());
}

proof fn lemma_rules_clean(rules: Seq<RuleView>, n: nat)
    requires
        n <= rules.len(),
        forall|i: int| 0 <= i < n ==> #[trigger] rule_issues(rules, i) == Seq::<IssueView>::empty(),
    ensures
        rules_issues(rules, n) == Seq::<IssueView>::empty(),
    decreases n,
{
    if n > 0 {
        lemma_rules_clean(rules, (n - 1) as nat);
        assert(rule_issues(rules, n - 1) == Seq::<IssueView>::empty());
        assert(rules_issues(rules, n) =~= Seq::<IssueView>::empty());
    }
}

proof fn lemma_default_rule_0_clean()
    ensures
        rule_issues(default_rules_view(), 0) == Seq::<IssueView>::empty(),
{
    let rs = default_rules_view();
    reveal_strlit("youtube-shorts");
    reveal_strlit("YouTube Shorts");
    reveal_strlit("youtube.com/shorts");
    let r = rs[0];
    assert(short_text(r.label, 120));
    assert(short_text(r.any[0], 256));
    lemma_rule_tail_clean(r, 0);
    assert(short_text(r.id, 64));
    assert(!duplicate_before(rs, 0));
    lemma_id_clean(rs, 0);
    assert(rule_issues(rs, 0) =~= Seq::<IssueView>::empty());
}

proof fn lemma_default_rule_1_clean()
    ensures
        rule_issues(default_rules_view(), 1) == Seq::<IssueView>::empty(),
{
    let rs = default_rules_view();
    reveal_strlit("instagram-reels");
    reveal_strlit("Instagram Reels");
    reveal_strlit("instagram.com/reel");
    reveal_strlit("youtube-shorts");
    let r = rs[1];
    assert(short_text(r.label, 120));
    assert(short_text(r.any[0], 256));
    lemma_rule_tail_clean(r, 1);
    assert(short_text(r.id, 64));
    assert forall|j: int| 0 <= j < 1 implies !(id_ok(#[trigger] rs[j]) && id_key(rs[j]) == id_key(rs[1])) by {
        if j == 0 {
            assert(trimmed_text(rs[0].id));
            lemma_keys_differ(rs[0], rs[1]);
        }
    }
    assert(!duplicate_before(rs, 1));
    lemma_id_clean(rs, 1);
    assert(rule_issues(rs, 1) =~= Seq::<IssueView>::empty());
}

proof fn lemma_default_rule_2_clean()
    ensures
        rule_issues(default_rules_view(), 2) == Seq::<IssueView>::empty(),
{
    let rs = default_rules_view();
    reveal_strlit("tiktok");
    reveal_strlit("TikTok");
    reveal_strlit("tiktok.com");
    reveal_strlit("youtube-shorts");
    reveal_strlit("instagram-reels");
    let r = rs[2];
    assert(short_text(r.label, 120));
    assert(short_text(r.any[0], 256));
    lemma_rule_tail_clean(r, 2);
    assert(short_text(r.id, 64));
    assert forall|j: int| 0 <= j < 2 implies !(id_ok(#[trigger] rs[j]) && id_key(rs[j]) == id_key(rs[2])) by {
        if j == 0 {
            assert(trimmed_text(rs[0].id));
            lemma_keys_differ(rs[0], rs[2]);
        } else if j == 1 {
            assert(trimmed_text(rs[1].id));
            lemma_keys_differ(rs[1], rs[2]);
        }
    }
    assert(!duplicate_before(rs, 2));
    lemma_id_clean(rs, 2);
    assert(rule_issues(rs, 2) =~= Seq::<IssueView>::empty());
}

proof fn lemma_default_rule_3_clean()
    ensures
        rule_issues(default_rules_view(), 3) == Seq::<IssueView>::empty(),
{
    let rs = default_rules_view();
    reveal_strlit("facebook-reels");
    reveal_strlit("Facebook Reels");
    reveal_strlit("facebook.com/reel");
    reveal_strlit("facebook.com/watch");
    reveal_strlit("fb.watch");
    reveal_strlit("youtube-shorts");
    reveal_strlit("instagram-reels");
    reveal_strlit("tiktok");
    let r = rs[3];
    assert(short_text(r.label, 120));
    assert(short_text(r.any[0], 256));
    assert(short_text(r.any[1], 256));
    assert(short_text(r.any[2], 256));
    lemma_rule_tail_clean(r, 3);
    assert(short_text(r.id, 64));
    assert forall|j: int| 0 <= j < 3 implies !(id_ok(#[trigger] rs[j]) && id_key(rs[j]) == id_key(rs[3])) by {
        if j == 0 {
            assert(trimmed_text(rs[0].id));
            lemma_keys_differ(rs[0], rs[3]);
        } else if j == 1 {
            assert(trimmed_text(rs[1].id));
            lemma_keys_differ(rs[1], rs[3]);
        } else if j == 2 {
            assert(trimmed_text(rs[2].id));
            lemma_keys_differ(rs[2], rs[3]);
        }
    }
    assert(!duplicate_before(rs, 3));
    lemma_id_clean(rs, 3);
    assert(rule_issues(rs, 3) =~= Seq::<IssueView>::empty());
}

proof fn lemma_default_rule_4_clean()
    ensures
        rule_issues(default_rules_view(), 4) == Seq::<IssueView>::empty(),
{
    let rs = default_rules_view();
    reveal_strlit("snapchat");
    reveal_strlit("Snapchat");
    reveal_strlit("snapchat.com");
    reveal_strlit("youtube-shorts");
    reveal_strlit("instagram-reels");
    reveal_strlit("tiktok");
    reveal_strlit("facebook-reels");
    let r = rs[4];
    assert(short_text(r.label, 120));
    assert(short_text(r.any[0], 256));
    lemma_rule_tail_clean(r, 4);
    assert(short_text(r.id, 64));
    assert forall|j: int| 0 <= j < 4 implies !(id_ok(#[trigger] rs[j]) && id_key(rs[j]) == id_key(rs[4])) by {
        if j == 0 {
            assert(trimmed_text(rs[0].id));
            lemma_keys_differ(rs[0], rs[4]);
        } else if j == 1 {
            assert(trimmed_text(rs[1].id));
            lemma_keys_differ(rs[1], rs[4]);
        } else if j == 2 {
            assert(trimmed_text(rs[2].id));
            lemma_keys_differ(rs[2], rs[4]);
        } else if j == 3 {
            assert(trimmed_text(rs[3].id));
            lemma_keys_differ(rs[3], rs[4]);
        }
    }
    assert(!duplicate_before(rs, 4));
    lemma_id_clean(rs, 4);
    assert(rule_issues(rs, 4) =~= Seq::<IssueView>::empty());
}

proof fn lemma_default_rule_5_clean()
    ensures
        rule_issues(default_rules_view(), 5) == Seq::<IssueView>::empty(),
{
    let rs = default_rules_view();
    reveal_strlit("streaming");
    reveal_strlit("Streaming");
    reveal_strlit("netflix.com");
    reveal_strlit("netflix");
    reveal_strlit("primevideo.com");
    reveal_strlit("prime video");
    reveal_strlit("hotstar.com");
    reveal_strlit("hotstar");
    reveal_strlit("disneyplus.com");
    reveal_strlit("disney+");
    reveal_strlit("crunchyroll");
    reveal_strlit("hulu.com");
    reveal_strlit("jiocinema");
    reveal_strlit("sonyliv");
    reveal_strlit("zee5");
    reveal_strlit("aha.video");
    reveal_strlit("mxplayer");
    reveal_strlit("peacocktv.com");
    reveal_strlit("tv.apple.com");
    reveal_strlit("youtube-shorts");
    reveal_strlit("instagram-reels");
    reveal_strlit("tiktok");
    reveal_strlit("facebook-reels");
    reveal_strlit("snapchat");
    let r = rs[5];
    assert(short_text(r.label, 120));
    assert(short_text(r.any[0], 256));
    assert(short_text(r.any[1], 256));
    assert(short_text(r.any[2], 256));
    assert(short_text(r.any[3], 256));
    assert(short_text(r.any[4], 256));
    assert(short_text(r.any[5], 256));
    assert(short_text(r.any[6], 256));
    assert(short_text(r.any[7], 256));
    assert(short_text(r.any[8], 256));
    assert(short_text(r.any[9], 256));
    assert(short_text(r.any[10], 256));
    assert(short_text(r.any[11], 256));
    assert(short_text(r.any[12], 256));
    assert(short_text(r.any[13], 256));
    assert(short_text(r.any[14], 256));
    assert(short_text(r.any[15], 256));
    assert(short_text(r.any[16], 256));
    lemma_rule_tail_clean(r, 5);
    assert(short_text(r.id, 64));
    assert forall|j: int| 0 <= j < 5 implies !(id_ok(#[trigger] rs[j]) && id_key(rs[j]) == id_key(rs[5])) by {
        if j == 0 {
            assert(trimmed_text(rs[0].id));
            lemma_keys_differ(rs[0], rs[5]);
        } else if j == 1 {
            assert(trimmed_text(rs[1].id));
            lemma_keys_differ(rs[1], rs[5]);
        } else if j == 2 {
            assert(trimmed_text(rs[2].id));
            lemma_keys_differ(rs[2], rs[5]);
        } else if j == 3 {
            assert(trimmed_text(rs[3].id));
            lemma_keys_differ(rs[3], rs[5]);
        } else if j == 4 {
            assert(trimmed_text(rs[4].id));
            lemma_keys_differ(rs[4], rs[5]);
        }
    }
    assert(!duplicate_before(rs, 5));
    lemma_id_clean(rs, 5);
    assert(rule_issues(rs, 5) =~= Seq::<IssueView>::empty());
}

proof fn lemma_default_rule_6_clean()
    ensures
        rule_issues(default_rules_view(), 6) == Seq::<IssueView>::empty(),
{
    let rs = default_rules_view();
    reveal_strlit("instagram");
    reveal_strlit("Instagram");
    reveal_strlit("instagram.com");
    reveal_strlit("youtube-shorts");
    reveal_strlit("instagram-reels");
    reveal_strlit("tiktok");
    reveal_strlit("facebook-reels");
    reveal_strlit("snapchat");
    reveal_strlit("streaming");
    let r = rs[6];
    assert(short_text(r.label, 120));
    assert(short_text(r.any[0], 256));
    lemma_rule_tail_clean(r, 6);
    assert(short_text(r.id, 64));
    assert forall|j: int| 0 <= j < 6 implies !(id_ok(#[trigger] rs[j]) && id_key(rs[j]) == id_key(rs[6])) by {
        if j == 0 {
            assert(trimmed_text(rs[0].id));
            lemma_keys_differ(rs[0], rs[6]);
        } else if j == 1 {
            assert(trimmed_text(rs[1].id));
            lemma_keys_differ(rs[1], rs[6]);
        } else if j == 2 {
            assert(trimmed_text(rs[2].id));
            lemma_keys_differ(rs[2], rs[6]);
        } else if j == 3 {
            assert(trimmed_text(rs[3].id));
            lemma_keys_differ(rs[3], rs[6]);
        } else if j == 4 {
            assert(trimmed_text(rs[4].id));
            lemma_keys_differ(rs[4], rs[6]);
        } else if j == 5 {
            assert(trimmed_text(rs[5].id));
            lemma_keys_differ(rs[5], rs[6]);
        }
    }
    assert(!duplicate_before(rs, 6));
    lemma_id_clean(rs, 6);
    assert(rule_issues(rs, 6) =~= Seq::<IssueView>::empty());
}

proof fn lemma_default_rule_7_clean()
    ensures
        rule_issues(default_rules_view(), 7) == Seq::<IssueView>::empty(),
{
    let rs = default_rules_view();
    reveal_strlit("reddit");
    reveal_strlit("Reddit");
    reveal_strlit("reddit.com");
    reveal_strlit("youtube-shorts");
    reveal_strlit("instagram-reels");
    reveal_strlit("tiktok");
    reveal_strlit("facebook-reels");
    reveal_strlit("snapchat");
    reveal_strlit("streaming");
    reveal_strlit("instagram");
    let r = rs[7];
    assert(short_text(r.label, 120));
    assert(short_text(r.any[0], 256));
    lemma_rule_tail_clean(r, 7);
    assert(short_text(r.id, 64));
    assert forall|j: int| 0 <= j < 7 implies !(id_ok(#[trigger] rs[j]) && id_key(rs[j]) == id_key(rs[7])) by {
        if j == 0 {
            assert(trimmed_text(rs[0].id));
            lemma_keys_differ(rs[0], rs[7]);
        } else if j == 1 {
            assert(trimmed_text(rs[1].id));
            lemma_keys_differ(rs[1], rs[7]);
        } else if j == 2 {
            assert(trimmed_text(rs[2].id));
            lemma_keys_differ(rs[2], rs[7]);
        } else if j == 3 {
            assert(trimmed_text(rs[3].id));
            lemma_keys_differ(rs[3], rs[7]);
        } else if j == 4 {
            assert(trimmed_text(rs[4].id));
            lemma_keys_differ(rs[4], rs[7]);
        } else if j == 5 {
            assert(trimmed_text(rs[5].id));
            lemma_keys_differ(rs[5], rs[7]);
        } else if j == 6 {
            assert(trimmed_text(rs[6].id));
            lemma_keys_differ(rs[6], rs[7]);
        }
    }
    assert(!duplicate_before(rs, 7));
    lemma_id_clean(rs, 7);
    assert(rule_issues(rs, 7) =~= Seq::<IssueView>::empty());
}

proof fn lemma_default_rule_8_clean()
    ensures
        rule_issues(default_rules_view(), 8) == Seq::<IssueView>::empty(),
{
    let rs = default_rules_view();
    reveal_strlit("youtube-watch");
    reveal_strlit("YouTube");
    reveal_strlit("youtube.com/watch");
    reveal_strlit("- youtube");
    reveal_strlit("youtube-shorts");
    reveal_strlit("instagram-reels");
    reveal_strlit("tiktok");
    reveal_strlit("facebook-reels");
    reveal_strlit("snapchat");
    reveal_strlit("streaming");
    reveal_strlit("instagram");
    reveal_strlit("reddit");
    let r = rs[8];
    assert(short_text(r.label, 120));
    assert(short_text(r.any[0], 256));
    assert(short_text(r.any[1], 256));
    lemma_rule_tail_clean(r, 8);
    assert(short_text(r.id, 64));
    assert forall|j: int| 0 <= j < 8 implies !(id_ok(#[trigger] rs[j]) && id_key(rs[j]) == id_key(rs[8])) by {
        if j == 0 {
            assert(trimmed_text(rs[0].id));
            lemma_keys_differ(rs[0], rs[8]);
        } else if j == 1 {
            assert(trimmed_text(rs[1].id));
            lemma_keys_differ(rs[1], rs[8]);
        } else if j == 2 {
            assert(trimmed_text(rs[2].id));
            lemma_keys_differ(rs[2], rs[8]);
        } else if j == 3 {
            assert(trimmed_text(rs[3].id));
            lemma_keys_differ(rs[3], rs[8]);
        } else if j == 4 {
            assert(trimmed_text(rs[4].id));
            lemma_keys_differ(rs[4], rs[8]);
        } else if j == 5 {
            assert(trimmed_text(rs[5].id));
            lemma_keys_differ(rs[5], rs[8]);
        } else if j == 6 {
            assert(trimmed_text(rs[6].id));
            lemma_keys_differ(rs[6], rs[8]);
        } else if j == 7 {
            assert(trimmed_text(rs[7].id));
            lemma_keys_differ(rs[7], rs[8]);
        }
    }
    assert(!duplicate_before(rs, 8));
    lemma_id_clean(rs, 8);
    assert(rule_issues(rs, 8) =~= Seq::<IssueView>::empty());
}

/// The built-in rules pass validation.
proof fn lemma_default_rules_clean()
    ensures
        rules_issues(default_rules_view(), 9) == Seq::<IssueView>::empty(),
{
    lemma_default_rule_0_clean();
    lemma_default_rule_1_clean();
    lemma_default_rule_2_clean();
    lemma_default_rule_3_clean();
    lemma_default_rule_4_clean();
    lemma_default_rule_5_clean();
    lemma_default_rule_6_clean();
    lemma_default_rule_7_clean();
    lemma_default_rule_8_clean();
    let rs = default_rules_view();
    assert forall|i: int| 0 <= i < 9 implies #[trigger] rule_issues(rs, i) == Seq::<IssueView>::empty() by {
        if i == 0 {} else if i == 1 {} else if i == 2 {} else if i == 3 {} else if i == 4 {} else if i == 5 {} else if i == 6 {} else if i == 7 {} else {}
    }
    lemma_rules_clean(rs, 9);
}

/// Law: the default settings pass validation.
pub proof fn defaults_pass_validation()
    ensures
        config_issues(default_config_view()).len() == 0,
{
    lemma_default_rules_clean();
    reveal_strlit("09:00");
    reveal_strlit("17:00");
    assert(clock_minutes("09:00"@) == Some(540u16));
    assert(clock_minutes("17:00"@) == Some(1020u16));
    assert(default_rules_view().len() == 9);
    assert(config_issues(default_config_view()) =~= Seq::<IssueView>::empty());
}

/// Law: whatever the files hold, loading yields settings that pass
/// validation; an unknown or out-of-range value is never taken into use.
pub proof fn loaded_settings_pass_validation(primary: LoadJson<Config>, backup: Option<Config>)
    ensures
        config_issues(config_load_view(primary, backup).0).len() == 0,
{
    defaults_pass_validation();
}

/// Law: the patrol switch is not a validated setting, and putting the
/// built-in rules back keeps valid settings valid.
pub proof fn switch_and_rule_reset_keep_settings_valid(c: ConfigView, on: bool)
    requires
        config_issues(c).len() == 0,
    ensures
        config_issues(ConfigView { enabled: on, ..c }).len() == 0,
        config_issues(ConfigView { rules: default_rules_view(), ..c }).len() == 0,
{
    assert(config_issues(ConfigView { enabled: on, ..c }) == config_issues(c));
    lemma_default_rules_clean();
    assert(default_rules_view().len() == 9);
    let d = ConfigView { rules: default_rules_view(), ..c };
    assert(config_issues(d) =~= Seq::<IssueView>::empty());
}

/// A pattern as validation accepts it: no whitespace at either end, and
/// 1 to 256 bytes long.
pub open spec fn clean_pattern(p: Seq<char>) -> bool {
    p.len() > 0 && trim(p) == p && utf8_len(p) <= 256
}

/// A rule as validation accepts it: an ID of 1 to 64 bytes and a name of
/// 1 to 120 bytes, both without whitespace at either end; every pattern
/// clean and at least one of them; a grace of at most a day.
pub open spec fn rule_in_bounds(r: RuleView) -> bool {
    &&& r.id.len() > 0 && trim(r.id) == r.id && utf8_len(r.id) <= 64
    &&& r.label.len() > 0 && trim(r.label) == r.label && utf8_len(r.label) <= 120
    &&& forall|k: int| 0 <= k < r.all.len() ==> clean_pattern(#[trigger] r.all[k])
    &&& forall|k: int| 0 <= k < r.any.len() ==> clean_pattern(#[trigger] r.any[k])
    &&& r.all.len() + r.any.len() > 0
    &&& r.grace <= 86400
}

proof fn lemma_rules_issues_empty(rules: Seq<RuleView>, n: nat)
    requires
        rules_issues(rules, n).len() == 0,
    ensures
        forall|i: int| 0 <= i < n ==> (#[trigger] rule_issues(rules, i)).len() == 0,
    decreases n,
{
    if n > 0 {
        lemma_rules_issues_empty(rules, (n - 1) as nat);
    }
}

proof fn lemma_pattern_issues_empty(base: Seq<char>, field: Seq<char>, ps: Seq<Seq<char>>, n: nat)
    requires
        pattern_issues(base, field, ps, n).len() == 0,
    ensures
        forall|k: int| 0 <= k < n ==> clean_pattern(#[trigger] ps[k]),
    decreases n,
{
    if n > 0 {
        lemma_pattern_issues_empty(base, field, ps, (n - 1) as nat);
        assert(one_pattern_issues(base, field, (n - 1) as nat, ps[n - 1]).len() == 0);
    }
}

proof fn lemma_rule_in_bounds(rules: Seq<RuleView>, i: int)
    requires
        0 <= i < rules.len(),
        rule_issues(rules, i).len() == 0,
    ensures
        rule_in_bounds(rules[i]),
        !duplicate_before(rules, i),
{
    let r = rules[i];
    let base = rule_base(i as nat);
    assert(id_issues(rules, i).len() == 0);
    assert(label_issues(r, i as nat).len() == 0);
    assert(pattern_issues(base, "all"@, r.all, r.all.len()).len() == 0);
    assert(pattern_issues(base, "any"@, r.any, r.any.len()).len() == 0);
    lemma_pattern_issues_empty(base, "all"@, r.all, r.all.len());
    lemma_pattern_issues_empty(base, "any"@, r.any, r.any.len());
    assert(!all_patterns_blank(r));
    assert(range_issues(base + ".grace"@, r.grace, 0, 86400).len() == 0);
}

proof fn lemma_rules_in_bounds(rs: Seq<RuleView>)
    requires
        rules_issues(rs, rs.len()).len() == 0,
    ensures
        forall|i: int| 0 <= i < rs.len() ==> rule_in_bounds(#[trigger] rs[i]),
        forall|i: int, j: int| 0 <= j < i < rs.len() ==> lower(#[trigger] rs[j].id) != lower(#[trigger] rs[i].id),
{
    lemma_rules_issues_empty(rs, rs.len());
    assert forall|i: int| 0 <= i < rs.len() implies rule_in_bounds(#[trigger] rs[i]) && !duplicate_before(rs, i) by {
        assert(rule_issues(rs, i).len() == 0);
        lemma_rule_in_bounds(rs, i);
    }
    assert forall|i: int, j: int| 0 <= j < i < rs.len() implies lower(#[trigger] rs[j].id) != lower(
        #[trigger] rs[i].id,
    ) by {
        assert(rule_in_bounds(rs[i]) && !duplicate_before(rs, i));
        assert(rule_in_bounds(rs[j]));
        assert(id_ok(rs[j]));
        assert(id_key(rs[j]) == lower(rs[j].id));
        assert(id_key(rs[i]) == lower(rs[i].id));
    }
}

/// Law: settings that pass validation keep every documented bound: the
/// numbers within their ranges, strict `HH:MM` schedule times, a weekday
/// for a schedule that is on, at least one rule, every rule within its
/// bounds, and rule IDs that differ from each other in more than ASCII
/// case.
#[verifier::spinoff_prover]
pub proof fn valid_settings_are_in_bounds(c: ConfigView)
    requires
        config_issues(c).len() == 0,
    ensures
        c.countdown_seconds <= 30,
        1 <= c.snooze_minutes <= 240,
        250 <= c.poll_ms <= 10000,
        500 <= c.url_poll_ms <= 10000,
        SCALE_MIN_BITS <= c.cat.scale_bits <= SCALE_MAX_BITS,
        SPEED_MIN_BITS <= c.cat.speed_bits <= SPEED_MAX_BITS,
        c.daily_allowance.minutes <= 1440,
        c.schedule.enabled ==> c.schedule.weekdays.len() > 0,
        clock_minutes(c.schedule.start) is Some,
        clock_minutes(c.schedule.end) is Some,
        c.rules.len() > 0,
        forall|i: int| 0 <= i < c.rules.len() ==> rule_in_bounds(#[trigger] c.rules[i]),
        forall|i: int, j: int|
            0 <= j < i < c.rules.len() ==> lower(#[trigger] c.rules[j].id) != lower(#[trigger] c.rules[i].id),
{
    let a = range_issues("countdownSeconds"@, c.countdown_seconds, 0, 30);
    let b = range_issues("snoozeMinutes"@, c.snooze_minutes, 1, 240);
    let p = range_issues("pollMs"@, c.poll_ms, 250, 10000);
    let u = range_issues("urlPollMs"@, c.url_poll_ms, 500, 10000);
    let sc = float_issues("cat.scale"@, c.cat.scale_bits, SCALE_MIN_BITS, SCALE_MAX_BITS, "Value must be between 0.7 and 2.2"@);
    let sp = float_issues("cat.speed"@, c.cat.speed_bits, SPEED_MIN_BITS, SPEED_MAX_BITS, "Value must be between 0.5 and 2"@);
    let d = range_issues("dailyAllowance.minutes"@, c.daily_allowance.minutes, 0, 1440);
    let sch = schedule_issues(c.schedule);
    let rl = rules_issues(c.rules, c.rules.len());
    let none = if c.rules.len() == 0 {
        seq![mk_issue("rules"@, "required"@, "At least one rule is required"@)]
    } else {
        seq![]
    };
    assert(config_issues(c) == a + b + p + u + sc + sp + d + sch + rl + none);
    assert(a.len() == 0 && b.len() == 0 && p.len() == 0 && u.len() == 0);
    assert(sc.len() == 0 && sp.len() == 0 && d.len() == 0);
    assert(sch.len() == 0 && rl.len() == 0 && none.len() == 0);
    lemma_rules_in_bounds(c.rules);
}

proof fn lemma_clean_patterns_pass(base: Seq<char>, field: Seq<char>, ps: Seq<Seq<char>>, n: nat)
    requires
        n <= ps.len(),
        forall|k: int| 0 <= k < n ==> clean_pattern(#[trigger] ps[k]),
    ensures
        pattern_issues(base, field, ps, n) == Seq::<IssueView>::empty(),
    decreases n,
{
    if n > 0 {
        lemma_clean_patterns_pass(base, field, ps, (n - 1) as nat);
        assert(clean_pattern(ps[n - 1]));
        assert(one_pattern_issues(base, field, (n - 1) as nat, ps[n - 1]) == Seq::<IssueView>::empty());
        assert(pattern_issues(base, field, ps, n) =~= Seq::<IssueView>::empty());
    }
}

proof fn lemma_rule_in_bounds_passes(rs: Seq<RuleView>, i: int)
    requires
        0 <= i < rs.len(),
        rule_in_bounds(rs[i]),
        forall|j: int| 0 <= j < i ==> lower(#[trigger] rs[j].id) != lower(rs[i].id),
        forall|j: int| 0 <= j < i ==> rule_in_bounds(#[trigger] rs[j]),
    ensures
        rule_issues(rs, i) == Seq::<IssueView>::empty(),
{
    let r = rs[i];
    let base = rule_base(i as nat);
    assert(!duplicate_before(rs, i)) by {
        assert forall|j: int| 0 <= j < i && id_ok(#[trigger] rs[j]) implies id_key(rs[j]) != id_key(rs[i]) by {
            assert(rule_in_bounds(rs[j]));
            assert(lower(rs[j].id) != lower(rs[i].id));
        }
    }
    assert(id_issues(rs, i) =~= Seq::<IssueView>::empty());
    lemma_clean_patterns_pass(base, "all"@, r.all, r.all.len());
    lemma_clean_patterns_pass(base, "any"@, r.any, r.any.len());
    if r.any.len() > 0 {
        assert(clean_pattern(r.any[0]));
    } else {
        assert(clean_pattern(r.all[0]));
    }
    assert(!all_patterns_blank(r));
    assert(label_issues(r, i as nat) =~= Seq::<IssueView>::empty());
    assert(rule_tail_issues(r, i as nat) =~= Seq::<IssueView>::empty());
    assert(rule_issues(rs, i) =~= Seq::<IssueView>::empty());
}

/// Law: settings within every documented bound pass validation: no issue
/// is reported for them.
#[verifier::spinoff_prover]
pub proof fn settings_within_bounds_pass_validation(c: ConfigView)
    requires
        c.countdown_seconds <= 30,
        1 <= c.snooze_minutes <= 240,
        250 <= c.poll_ms <= 10000,
        500 <= c.url_poll_ms <= 10000,
        SCALE_MIN_BITS <= c.cat.scale_bits <= SCALE_MAX_BITS,
        SPEED_MIN_BITS <= c.cat.speed_bits <= SPEED_MAX_BITS,
        c.daily_allowance.minutes <= 1440,
        c.schedule.enabled ==> c.schedule.weekdays.len() > 0,
        clock_minutes(c.schedule.start) is Some,
        clock_minutes(c.schedule.end) is Some,
        c.rules.len() > 0,
        forall|i: int| 0 <= i < c.rules.len() ==> rule_in_bounds(#[trigger] c.rules[i]),
        forall|i: int, j: int|
            0 <= j < i < c.rules.len() ==> lower(#[trigger] c.rules[j].id) != lower(#[trigger] c.rules[i].id),
    ensures
        config_issues(c).len() == 0,
{
    let rs = c.rules;
    assert forall|i: int| 0 <= i < rs.len() implies #[trigger] rule_issues(rs, i) == Seq::<IssueView>::empty() by {
        assert forall|j: int| 0 <= j < i implies lower(#[trigger] rs[j].id) != lower(rs[i].id) by {
            assert(lower(rs[j].id) != lower(rs[i].id));
        }
        lemma_rule_in_bounds_passes(rs, i);
    }
    lemma_rules_clean(rs, rs.len());
    assert(schedule_issues(c.schedule) =~= Seq::<IssueView>::empty());
    assert(config_issues(c) =~= Seq::<IssueView>::empty());
}

/// Law: a schedule start or end time that is not a strict `HH:MM` is
/// reported as an invalid time under its own path.
pub proof fn unreadable_schedule_time_is_reported(c: ConfigView)
    ensures
        clock_minutes(c.schedule.start) is None ==> config_issues(c).contains(
            mk_issue("schedule.start"@, "invalid_time"@, "Start time must use HH:MM"@),
        ),
        clock_minutes(c.schedule.end) is None ==> config_issues(c).contains(
            mk_issue("schedule.end"@, "invalid_time"@, "End time must use HH:MM"@),
        ),
{
    let s = c.schedule;
    let a = range_issues("countdownSeconds"@, c.countdown_seconds, 0, 30)
        + range_issues("snoozeMinutes"@, c.snooze_minutes, 1, 240)
        + range_issues("pollMs"@, c.poll_ms, 250, 10000)
        + range_issues("urlPollMs"@, c.url_poll_ms, 500, 10000)
        + float_issues("cat.scale"@, c.cat.scale_bits, SCALE_MIN_BITS, SCALE_MAX_BITS, "Value must be between 0.7 and 2.2"@)
        + float_issues("cat.speed"@, c.cat.speed_bits, SPEED_MIN_BITS, SPEED_MAX_BITS, "Value must be between 0.5 and 2"@)
        + range_issues("dailyAllowance.minutes"@, c.daily_allowance.minutes, 0, 1440);
    let w = if s.enabled && s.weekdays.len() == 0 {
        seq![mk_issue("schedule.weekdays"@, "required"@, "Select at least one scheduled weekday"@)]
    } else {
        seq![]
    };
    let st = if clock_minutes(s.start) is None {
        seq![mk_issue("schedule.start"@, "invalid_time"@, "Start time must use HH:MM"@)]
    } else {
        seq![]
    };
    let en = if clock_minutes(s.end) is None {
        seq![mk_issue("schedule.end"@, "invalid_time"@, "End time must use HH:MM"@)]
    } else {
        seq![]
    };
    let rest = rules_issues(c.rules, c.rules.len()) + (if c.rules.len() == 0 {
        seq![mk_issue("rules"@, "required"@, "At least one rule is required"@)]
    } else {
        seq![]
    });
    assert(schedule_issues(s) == w + st + en);
    assert(config_issues(c) == a + (w + st + en) + rest);
    if clock_minutes(s.start) is None {
        assert(config_issues(c)[(a.len() + w.len()) as int] == st[0]);
    }
    if clock_minutes(s.end) is None {
        assert(config_issues(c)[(a.len() + w.len() + st.len()) as int] == en[0]);
    }
}

/// Law: loading keeps settings that pass validation: a valid primary is
/// taken as it is, with no note; a primary that fails validation gives
/// way to a backup that passes; only when neither passes, or no file
/// exists, do the defaults come in, and only a missing file has the
/// defaults written out.
#[verifier::spinoff_prover]
pub proof fn load_prefers_valid_settings(p: Config, b: Config)
    ensures
        config_issues(p@).len() == 0 ==> config_load_view(LoadJson::Primary(p), Some(b)) == (
            p@,
            Seq::<Seq<char>>::empty(),
            false,
        ),
        config_issues(p@).len() == 0 ==> config_load_view(LoadJson::Primary(p), None).0 == p@,
        config_issues(p@).len() > 0 && config_issues(b@).len() == 0 ==> config_load_view(
            LoadJson::Primary(p),
            Some(b),
        ).0 == b@,
        config_issues(p@).len() > 0 && config_issues(b@).len() > 0 ==> config_load_view(
            LoadJson::Primary(p),
            Some(b),
        ).0 == default_config_view(),
        config_issues(p@).len() > 0 ==> config_load_view(LoadJson::Primary(p), None).0 == default_config_view(),
        config_issues(p@).len() == 0 ==> config_load_view(LoadJson::Backup(p), Some(b)).0 == p@,
        config_issues(p@).len() > 0 ==> config_load_view(LoadJson::Backup(p), Some(b)).0 == default_config_view(),
        !config_load_view(LoadJson::Primary(p), Some(b)).2,
        !config_load_view(LoadJson::Backup(p), Some(b)).2,
        config_load_view(LoadJson::Missing, Some(b)) == (default_config_view(), Seq::<Seq<char>>::empty(), true),
{
}

} // verus!
