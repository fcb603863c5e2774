//! What is in front, and the checks made around closing it.
//!
//! Reading the foreground window and sending input are done by the
//! caller; this module holds the window snapshot and every decision made
//! about one.

use vstd::prelude::*;
use crate::config::{action_text, all_digits, first_index, Rule, RuleAction, RuleView};
use crate::rules::{rule_matches_view, matches_rule};
use crate::storage::ends_with;
use crate::usage::sat_sub;
use crate::text::{
    chars_of, contains, contains_exec, is_ws_exec, lower, lower_vec, occurs_at_exec, push_str, slice_of,
    string_of, trim, trim_start, trim_vec,
};

verus! {

/// The foreground window as last observed.
#[derive(Debug)]
pub struct Snapshot {
    pub hwnd: isize,
    pub pid: u32,
    pub proc: String,
    pub title: String,
    pub url: String,
}

pub struct SnapshotView {
    pub hwnd: isize,
    pub pid: u32,
    pub proc: Seq<char>,
    pub title: Seq<char>,
    pub url: Seq<char>,
}

impl View for Snapshot {
    type V = SnapshotView;

    open spec fn view(&self) -> SnapshotView {
        SnapshotView {
            hwnd: self.hwnd,
            pid: self.pid,
            proc: self.proc@,
            title: self.title@,
            url: self.url@,
        }
    }
}

impl Clone for Snapshot {
    fn clone(&self) -> (r: Self)
        ensures
            r@ == self@,
    {
        Snapshot {
            hwnd: self.hwnd,
            pid: self.pid,
            proc: self.proc.clone(),
            title: self.title.clone(),
            url: self.url.clone(),
        }
    }
}

impl Default for Snapshot {
    fn default() -> (r: Self)
        ensures
            r@ == (SnapshotView {
                hwnd: 0,
                pid: 0,
                proc: Seq::empty(),
                title: Seq::empty(),
                url: Seq::empty(),
            }),
    {
        Snapshot { hwnd: 0, pid: 0, proc: String::new(), title: String::new(), url: String::new() }
    }
}

/// The processes treated as browsers, lowercased and without `.exe`.
pub open spec fn browsers() -> Seq<Seq<char>> {
    seq![
        "chrome"@,
        "msedge"@,
        "firefox"@,
        "brave"@,
        "opera"@,
        "vivaldi"@,
        "arc"@,
        "chromium"@,
        "librewolf"@,
        "zen"@,
        "opera_gx"@,
    ]
}

pub open spec fn is_browser_view(proc_name: Seq<char>) -> bool {
    exists|k: int| 0 <= k < browsers().len() && lower(proc_name) == #[trigger] browsers()[k]
}

/// Whether `v` holds exactly the characters of `s`.
pub fn chars_equal_str(v: &Vec<char>, s: &str) -> (r: bool)
    ensures
        r == (v@ == s@),
{
    let w = chars_of(s);
    crate::config::same_chars(v, &w)
}

/// A browser tab is cheap to close; a desktop app is not.
pub fn is_browser(proc_name: &str) -> (r: bool)
    ensures
        r == is_browser_view(proc_name@),
{
    let p = lower_vec(&chars_of(proc_name));
    let names: [&str; 11] = [
        "chrome",
        "msedge",
        "firefox",
        "brave",
        "opera",
        "vivaldi",
        "arc",
        "chromium",
        "librewolf",
        "zen",
        "opera_gx",
    ];
    assert(names@.map_values(|n: &str| n@) =~= browsers());
    let mut k: usize = 0;
    while k < 11
        invariant
            k <= 11,
            p@ == lower(proc_name@),
            names@.map_values(|n: &str| n@) == browsers(),
            forall|j: int| 0 <= j < k ==> lower(proc_name@) != #[trigger] browsers()[j],
        decreases 11 - k,
    {
        assert(browsers()[k as int] == names@[k as int]@);
        if chars_equal_str(&p, names[k]) {
            return true;
        }
        k = k + 1;
    }
    false
}

/// A title with a leading unread-count badge such as "(8) " removed,
/// together with any whitespace before and after the badge.
pub open spec fn strip_badge(t: Seq<char>) -> Seq<char> {
    let u = trim_start(t);
    if u.len() > 0 && u[0] == '(' {
        let rest = u.drop_first();
        match first_index(rest, ')') {
            Some(c) => if c > 0 && all_digits(rest.subrange(0, c)) {
                trim_start(rest.subrange(c + 1, rest.len() as int))
            } else {
                u
            },
            None => u,
        }
    } else {
        u
    }
}

/// The characters of `s` after leading whitespace.
fn trim_start_vec(s: &Vec<char>) -> (r: Vec<char>)
    ensures
        r@ == trim_start(s@),
{
    let n = s.len();
    let mut a: usize = 0;
    assert(s@.subrange(0, n as int) =~= s@);
    while a < n && is_ws_exec(s[a])
        invariant
            a <= n == s.len(),
            trim_start(s@) == trim_start(s@.subrange(a as int, n as int)),
        decreases n - a,
    {
        assert(s@.subrange(a as int, n as int).drop_first() =~= s@.subrange(a + 1, n as int));
        a = a + 1;
    }
    let r = slice_of(s, a, n);
    assert(trim_start(r@) == r@) by {
        if r@.len() > 0 {
            assert(r@[0] == s@[a as int]);
        }
    }
    r
}

/// Drops a leading unread-count badge — "(8) ", "(12) " — that browsers
/// prepend to the tab title and tick on their own between the moment the
/// cat is triggered and the moment it acts.
pub fn strip_notification_prefix(title: &str) -> (r: String)
    ensures
        r@ == strip_badge(title@),
{
    let t = chars_of(title);
    let u = trim_start_vec(&t);
    if u.len() > 0 && u[0] == '(' {
        let rest = slice_of(&u, 1, u.len());
        assert(rest@ =~= u@.drop_first());
        let mut c: usize = 0;
        while c < rest.len() && rest[c] != ')'
            invariant
                c <= rest.len(),
                forall|j: int| 0 <= j < c ==> rest@[j] != ')',
            decreases rest.len() - c,
        {
            c = c + 1;
        }
        if c < rest.len() {
            proof {
                crate::config::lemma_first_index_found(rest@, ')', c as int);
            }
            if c > 0 {
                let mut k: usize = 0;
                let mut digits = true;
                while k < c
                    invariant
                        k <= c < rest.len(),
                        digits == (forall|j: int| 0 <= j < k ==> crate::config::is_digit(#[trigger] rest@[j])),
                    decreases c - k,
                {
                    if !('0' <= rest[k] && rest[k] <= '9') {
                        digits = false;
                    }
                    k = k + 1;
                }
                let ghost inner = rest@.subrange(0, c as int);
                assert(digits == all_digits(inner)) by {
                    if digits {
                        assert forall|i: int| 0 <= i < inner.len() implies crate::config::is_digit(#[trigger] inner[i]) by {
                            assert(inner[i] == rest@[i]);
                        }
                    } else {
                        let j = choose|j: int| 0 <= j < c && !crate::config::is_digit(#[trigger] rest@[j]);
                        assert(inner[j] == rest@[j]);
                    }
                }
                if digits {
                    let after = slice_of(&rest, c + 1, rest.len());
                    let stripped = trim_start_vec(&after);
                    return string_of(&stripped);
                }
            }
        } else {
            proof {
                crate::config::lemma_first_index_absent(rest@, ')');
            }
        }
    }
    string_of(&u)
}

/// The last 40 characters of `s` (all of it when shorter).
pub open spec fn tail40(s: Seq<char>) -> Seq<char> {
    if s.len() > 40 {
        s.subrange(s.len() - 40, s.len() as int)
    } else {
        s
    }
}

/// The window in front still shows what was detected: once both titles
/// lose their unread badge, the current one contains the last 40
/// characters of the detected one.
pub open spec fn title_still_matches_view(now_title: Seq<char>, target_title: Seq<char>) -> bool {
    let want = tail40(strip_badge(target_title));
    want.len() == 0 || contains(strip_badge(now_title), want)
}

/// Whether the foreground title still looks like the detected one.
/// Browsers rewrite the leading part of a title constantly, so the
/// volatile badge is stripped from both sides and only the trailing part
/// is compared.
pub fn title_still_matches(now_title: &str, target_title: &str) -> (r: bool)
    ensures
        r == title_still_matches_view(now_title@, target_title@),
{
    let now = chars_of(strip_notification_prefix(now_title).as_str());
    let want = chars_of(strip_notification_prefix(target_title).as_str());
    let expect = if want.len() > 40 {
        slice_of(&want, want.len() - 40, want.len())
    } else {
        want
    };
    expect.len() == 0 || contains_exec(&now, &expect)
}

/// The outcome of one enforcement attempt.
#[derive(Debug)]
pub struct ActResult {
    pub acted: bool,
    pub reason: String,
}

/// Whether `a` and `b` are equal ignoring ASCII case (`eq_ignore_ascii_case`).
pub open spec fn eq_ignore_case(a: Seq<char>, b: Seq<char>) -> bool {
    lower(a) == lower(b)
}

pub fn eq_ignore_ascii_case(a: &str, b: &str) -> (r: bool)
    ensures
        r == eq_ignore_case(a@, b@),
{
    crate::config::same_chars(&lower_vec(&chars_of(a)), &lower_vec(&chars_of(b)))
}

/// Whether the original target is gone after an action was dispatched:
/// `Some(true)` confirmed, `Some(false)` still there, `None` undecidable.
pub open spec fn confirmation_view(
    action: RuleAction,
    original: SnapshotView,
    rule: RuleView,
    url_required: bool,
    observed: Option<SnapshotView>,
) -> Option<bool> {
    match observed {
        None => Some(true),
        Some(o) => if o.hwnd != original.hwnd || o.pid != original.pid {
            Some(true)
        } else if action == RuleAction::Close {
            Some(false)
        } else if trim(o.proc).len() == 0 {
            None
        } else if !eq_ignore_case(o.proc, original.proc) {
            Some(true)
        } else if url_required && trim(o.url).len() == 0 {
            None
        } else {
            Some(!rule_matches_view(rule, o))
        },
    }
}

/// Judges one observation of the original window after an action: a
/// window action is confirmed only when the window is gone or reused, a
/// tab action also when the window stopped matching the rule.
pub fn confirmation_result(
    action: RuleAction,
    original: &Snapshot,
    rule: &Rule,
    url_required: bool,
    observed: Option<&Snapshot>,
) -> (r: Option<bool>)
    ensures
        r == confirmation_view(
            action,
            original@,
            rule@,
            url_required,
            match observed {
                Some(o) => Some(o@),
                None => None,
            },
        ),
{
    let observed = match observed {
        None => return Some(true),
        Some(o) => o,
    };
    if observed.hwnd != original.hwnd || observed.pid != original.pid {
        return Some(true);
    }
    if action == RuleAction::Close {
        return Some(false);
    }
    if trim_vec(&chars_of(observed.proc.as_str())).len() == 0 {
        return None;
    }
    if !eq_ignore_ascii_case(observed.proc.as_str(), original.proc.as_str()) {
        return Some(true);
    }
    if url_required && trim_vec(&chars_of(observed.url.as_str())).len() == 0 {
        return None;
    }
    Some(!matches_rule(rule, observed))
}

/// The result reported for a confirmed or unconfirmed action.
pub fn confirmation_outcome(confirmed: bool, action: RuleAction) -> (r: ActResult)
    ensures
        r.acted == confirmed,
        r.reason@ == (if confirmed {
            action_text(action)
        } else {
            "the target did not close"@
        }),
{
    if confirmed {
        let mut reason = String::new();
        push_str(&mut reason, action.as_str());
        ActResult { acted: true, reason }
    } else {
        ActResult { acted: false, reason: String::from_str("the target did not close") }
    }
}

/// How an action reaches the window: Ctrl+W for a tab, `WM_CLOSE` for a
/// window.
#[derive(Debug, Clone, Copy, PartialEq, Eq, Structural)]
pub enum Dispatch {
    Keystroke,
    CloseMessage,
}

/// What the last check before acting decides: the input to send, or why
/// nothing is sent.
pub open spec fn close_verdict(
    target: SnapshotView,
    foreground: Option<isize>,
    now_title: Seq<char>,
    action: RuleAction,
) -> Result<Dispatch, Seq<char>> {
    match foreground {
        Some(h) if h == target.hwnd => if title_still_matches_view(now_title, target.title) {
            Ok(
                if action == RuleAction::Tab {
                    Dispatch::Keystroke
                } else {
                    Dispatch::CloseMessage
                },
            )
        } else {
            Err("the window moved on"@)
        },
        _ => Err("window is no longer in front"@),
    }
}

/// The last check before acting: the target must still be the foreground
/// window (`foreground` is `None` when there is none) and its title, with
/// the volatile unread-count prefix dropped, must still end the same way.
/// Between the cat deciding to act and this check you may have switched
/// to real work; acting blind would close whatever happened to be in
/// front.
pub fn close_check(target: &Snapshot, foreground: Option<isize>, now_title: &str, action: RuleAction) -> (r: Result<
    Dispatch,
    ActResult,
>)
    ensures
        match close_verdict(target@, foreground, now_title@, action) {
            Ok(d) => r == Ok::<Dispatch, ActResult>(d),
            Err(reason) => r matches Err(x) && !x.acted && x.reason@ == reason,
        },
{
    let front = match foreground {
        Some(h) => h == target.hwnd,
        None => false,
    };
    if !front {
        return Err(ActResult { acted: false, reason: String::from_str("window is no longer in front") });
    }
    if !title_still_matches(now_title, target.title.as_str()) {
        return Err(ActResult { acted: false, reason: String::from_str("the window moved on") });
    }
    match action {
        RuleAction::Tab => Ok(Dispatch::Keystroke),
        RuleAction::Close => Ok(Dispatch::CloseMessage),
    }
}

/// Why an action that the system did not accept did nothing.
pub open spec fn blocked_reason(action: RuleAction) -> Seq<char> {
    if action == RuleAction::Tab {
        "the keystroke was blocked"@
    } else {
        "the close message was blocked"@
    }
}

/// The result of handing the action to the system: acting means only
/// that the input or message was accepted.
pub fn dispatch_result(action: RuleAction, delivered: bool) -> (r: ActResult)
    ensures
        r.acted == delivered,
        r.reason@ == (if delivered {
            action_text(action)
        } else {
            blocked_reason(action)
        }),
{
    if delivered {
        let mut reason = String::new();
        push_str(&mut reason, action.as_str());
        ActResult { acted: true, reason }
    } else {
        match action {
            RuleAction::Tab => ActResult { acted: false, reason: String::from_str("the keystroke was blocked") },
            RuleAction::Close => ActResult { acted: false, reason: String::from_str("the close message was blocked") },
        }
    }
}

/// Confirmation looks at the window for 2 seconds after dispatch.
pub const CONFIRM_WINDOW_NS: u64 = 2_000_000_000;

/// ...every 125 milliseconds.
pub const CONFIRM_INTERVAL_MS: u64 = 125;

/// What to do after one look at the original window.
#[derive(Debug, Clone, Copy, PartialEq, Eq, Structural)]
pub enum ConfirmStep {
    Confirmed,
    GiveUp,
    Wait,
}

/// Confirmation stops as soon as a look confirms the target is gone, and
/// gives up at the deadline; an undecidable look never confirms.
pub fn confirm_step(verdict: Option<bool>, now: u64, deadline: u64) -> (r: ConfirmStep)
    ensures
        r == (if verdict == Some(true) {
            ConfirmStep::Confirmed
        } else if now >= deadline {
            ConfirmStep::GiveUp
        } else {
            ConfirmStep::Wait
        }),
{
    match verdict {
        Some(true) => ConfirmStep::Confirmed,
        _ => if now >= deadline {
            ConfirmStep::GiveUp
        } else {
            ConfirmStep::Wait
        },
    }
}

pub open spec fn is_separator(c: char) -> bool {
    c == '\\' || c == '/'
}

/// What follows the last `\` or `/` (`rsplit(['\\', '/']).next()`).
pub open spec fn last_segment(s: Seq<char>) -> Seq<char>
    decreases s.len(),
{
    if s.len() == 0 {
        s
    } else if is_separator(s.last()) {
        Seq::empty()
    } else {
        last_segment(s.drop_last()).push(s.last())
    }
}

/// `str::trim_end_matches` with a string pattern: every trailing copy of
/// `suffix` removed.
pub open spec fn trim_suffix(s: Seq<char>, suffix: Seq<char>) -> Seq<char>
    decreases s.len(),
{
    if suffix.len() > 0 && ends_with(s, suffix) {
        trim_suffix(s.subrange(0, s.len() - suffix.len()), suffix)
    } else {
        s
    }
}

/// The process name shown and matched: the executable's file name
/// without its `.exe` (or `.EXE`).
pub open spec fn process_stem(path: Seq<char>) -> Seq<char> {
    trim_suffix(trim_suffix(last_segment(path), ".exe"@), ".EXE"@)
}

fn trim_suffix_vec(v: &Vec<char>, suffix: &str) -> (r: Vec<char>)
    ensures
        r@ == trim_suffix(v@, suffix@),
{
    let suf = chars_of(suffix);
    let n = v.len();
    let mut end: usize = n;
    assert(v@.subrange(0, n as int) =~= v@);
    while suf.len() > 0 && end >= suf.len() && occurs_at_exec(v, &suf, end - suf.len())
        invariant
            end <= n == v.len(),
            suf@ == suffix@,
            trim_suffix(v@, suffix@) == trim_suffix(v@.subrange(0, end as int), suffix@),
        decreases end,
    {
        let ghost head = v@.subrange(0, end as int);
        assert(head.subrange(head.len() - suf@.len(), head.len() as int) =~= v@.subrange(
            end - suf@.len(),
            end as int,
        ));
        assert(head.subrange(0, head.len() - suf@.len()) =~= v@.subrange(0, end - suf@.len()));
        end = end - suf.len();
    }
    let ghost head = v@.subrange(0, end as int);
    if suf.len() > 0 && end >= suf.len() {
        assert(head.subrange(head.len() - suf@.len(), head.len() as int) =~= v@.subrange(
            end - suf@.len(),
            end as int,
        ));
    }
    slice_of(v, 0, end)
}

/// The process name from the full path of its executable.
pub fn process_name_from_path(path: &str) -> (r: String)
    ensures
        r@ == process_stem(path@),
{
    let s = chars_of(path);
    let n = s.len();
    let mut k: usize = n;
    assert(s@.subrange(0, n as int) =~= s@);
    assert(s@.subrange(n as int, n as int) =~= Seq::<char>::empty());
    while k > 0 && !(s[k - 1] == '\\' || s[k - 1] == '/')
        invariant
            k <= n == s.len(),
            last_segment(s@) == last_segment(s@.subrange(0, k as int)) + s@.subrange(k as int, n as int),
        decreases k,
    {
        let ghost head = s@.subrange(0, k as int);
        assert(head.drop_last() =~= s@.subrange(0, k - 1));
        assert(s@.subrange(k - 1, n as int) =~= seq![s@[k - 1]] + s@.subrange(k as int, n as int));
        assert(last_segment(head) == last_segment(s@.subrange(0, k - 1)).push(s@[k - 1]));
        assert(last_segment(s@.subrange(0, k - 1)).push(s@[k - 1]) + s@.subrange(k as int, n as int)
            =~= last_segment(s@.subrange(0, k - 1)) + s@.subrange(k - 1, n as int));
        k = k - 1;
    }
    let seg = slice_of(&s, k, n);
    assert(seg@ == last_segment(s@)) by {
        assert(last_segment(s@.subrange(0, k as int)) =~= Seq::<char>::empty());
        assert(Seq::<char>::empty() + seg@ =~= seg@);
    }
    let stem = trim_suffix_vec(&trim_suffix_vec(&seg, ".exe"), ".EXE");
    string_of(&stem)
}

/// The address bar's name as browsers give it: Chrome and Edge call it
/// "Address and search bar", Firefox "Search with ... or enter address".
pub open spec fn names_address_bar(name: Option<Seq<char>>) -> bool {
    name matches Some(n) && contains(lower(n), "address"@)
}

/// A field that already holds something URL-shaped.
pub open spec fn holds_url(value: Option<Seq<char>>) -> bool {
    value matches Some(v) && (contains(v, "."@) || (v.len() >= 4 && v.subrange(0, 4) == "http"@))
}

pub open spec fn opt_seq(o: Option<String>) -> Option<Seq<char>> {
    match o {
        Some(s) => Some(s@),
        None => None,
    }
}

/// The first index at which `p` holds, looking from `i` on.
pub open spec fn first_where(s: Seq<Option<Seq<char>>>, p: spec_fn(Option<Seq<char>>) -> bool, i: int) -> Option<int>
    decreases s.len() - i,
{
    if i < 0 || i >= s.len() {
        None
    } else if p(s[i]) {
        Some(i)
    } else {
        first_where(s, p, i + 1)
    }
}

pub open spec fn opt_seqs(v: Seq<Option<String>>) -> Seq<Option<Seq<char>>> {
    v.map_values(|o: Option<String>| opt_seq(o))
}

/// Among the edit fields of a browser window, given by their names, the
/// first that names itself the address bar.
pub fn pick_bar_by_name(names: &Vec<Option<String>>) -> (r: Option<usize>)
    ensures
        r == (match first_where(opt_seqs(names@), |o: Option<Seq<char>>| names_address_bar(o), 0) {
            Some(i) => Some(i as usize),
            None => None::<usize>,
        }),
{
    let key = chars_of("address");
    let mut i: usize = 0;
    while i < names.len()
        invariant
            i <= names.len(),
            key@ == "address"@,
            first_where(opt_seqs(names@), |o: Option<Seq<char>>| names_address_bar(o), 0) == first_where(
                opt_seqs(names@),
                |o: Option<Seq<char>>| names_address_bar(o),
                i as int,
            ),
        decreases names.len() - i,
    {
        let hit = match &names[i] {
            Some(n) => contains_exec(&lower_vec(&chars_of(n.as_str())), &key),
            None => false,
        };
        assert(opt_seqs(names@)[i as int] == opt_seq(names@[i as int]));
        if hit {
            return Some(i);
        }
        i = i + 1;
    }
    None
}

/// Otherwise the first edit field whose value looks like a URL: it holds
/// a `.` or starts with `http`.
pub fn pick_bar_by_value(values: &Vec<Option<String>>) -> (r: Option<usize>)
    ensures
        r == (match first_where(opt_seqs(values@), |o: Option<Seq<char>>| holds_url(o), 0) {
            Some(i) => Some(i as usize),
            None => None::<usize>,
        }),
{
    let dot = chars_of(".");
    let http = chars_of("http");
    proof {
        reveal_strlit("http");
    }
    let mut i: usize = 0;
    while i < values.len()
        invariant
            i <= values.len(),
            dot@ == "."@,
            http@ == "http"@,
            http@.len() == 4,
            first_where(opt_seqs(values@), |o: Option<Seq<char>>| holds_url(o), 0) == first_where(
                opt_seqs(values@),
                |o: Option<Seq<char>>| holds_url(o),
                i as int,
            ),
        decreases values.len() - i,
    {
        let hit = match &values[i] {
            Some(v) => {
                let c = chars_of(v.as_str());
                contains_exec(&c, &dot) || (c.len() >= 4 && occurs_at_exec(&c, &http, 0))
            },
            None => false,
        };
        assert(opt_seqs(values@)[i as int] == opt_seq(values@[i as int]));
        if hit {
            return Some(i);
        }
        i = i + 1;
    }
    None
}

/// Reads a browser's address bar, with the bar element `E` cached per
/// window (finding it again costs about 100 ms) and the last value reused
/// while it is fresh.
#[derive(Debug)]
pub struct UrlReader<E> {
    pub cached_for: isize,
    pub cached_bar: Option<E>,
    pub last_url: String,
    pub last_read: Option<u64>,
}

impl<E> UrlReader<E> {
    pub fn new() -> (r: Self)
        ensures
            r.cached_for == 0,
            r.cached_bar is None,
            r.last_url@.len() == 0,
            r.last_read is None,
    {
        UrlReader { cached_for: 0, cached_bar: None, last_url: String::new(), last_read: None }
    }

    /// The last value read, when it was read from `hwnd` less than
    /// `throttle_ns` ago.
    pub fn fresh_url(&self, hwnd: isize, now: u64, throttle_ns: u64) -> (r: Option<String>)
        ensures
            match self.last_read {
                Some(t) if sat_sub(now, t) < throttle_ns && self.cached_for == hwnd => r matches Some(u) && u@
                    == self.last_url@,
                _ => r is None,
            },
    {
        match self.last_read {
            Some(t) => if now.saturating_sub(t) < throttle_ns && self.cached_for == hwnd {
                Some(self.last_url.clone())
            } else {
                None
            },
            None => None,
        }
    }

    /// The bar found earlier for `hwnd`, if any.
    pub fn bar_for(&self, hwnd: isize) -> (r: Option<&E>)
        ensures
            self.cached_for == hwnd && self.cached_bar is Some ==> r == Some(&self.cached_bar->0),
            !(self.cached_for == hwnd && self.cached_bar is Some) ==> r is None,
    {
        if self.cached_for == hwnd {
            match &self.cached_bar {
                Some(b) => Some(b),
                None => None,
            }
        } else {
            None
        }
    }

    /// Remembers what a search of `hwnd`'s tree found.
    pub fn remember_bar(&mut self, hwnd: isize, bar: Option<E>)
        ensures
            final(self).cached_for == hwnd,
            final(self).cached_bar == bar,
            final(self).last_url == old(self).last_url,
            final(self).last_read == old(self).last_read,
    {
        self.cached_for = hwnd;
        self.cached_bar = bar;
    }

    /// Records the value read at `now` and hands it back. An empty read
    /// means the cached bar went stale (a stale element throws rather
    /// than returning), so it is dropped and found again next time.
    pub fn record_read(&mut self, value: String, now: u64) -> (r: String)
        ensures
            r == value,
            final(self).last_url == value,
            final(self).last_read == Some(now),
            final(self).cached_for == old(self).cached_for,
            value@.len() == 0 ==> final(self).cached_bar is None,
            value@.len() > 0 ==> final(self).cached_bar == old(self).cached_bar,
    {
        if value.as_str().is_empty() {
            self.cached_bar = None;
        }
        self.last_url = value.clone();
        self.last_read = Some(now);
        value
    }

    /// Forgets the bar and the last value: the window in front is not a
    /// browser.
    pub fn forget(&mut self)
        ensures
            final(self).cached_for == 0,
            final(self).cached_bar is None,
            final(self).last_url@.len() == 0,
            final(self).last_read == old(self).last_read,
    {
        self.cached_for = 0;
        self.cached_bar = None;
        self.last_url = String::new();
    }
}

} // verus!
