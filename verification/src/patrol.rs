//! The decisions of the watch: how long a match has held the foreground,
//! when the cat gets up, when it may act, and what it remembers.
//!
//! Instants are nanoseconds on the caller's monotonic clock.

use vstd::prelude::*;
use crate::config::{Config, ConfigView, EnforcementMode, Rule, RuleAction, RuleView};
use crate::progress::{award_outcome, level_cost, Progress, XP_CLOSE, XP_PAT};
use crate::rules::action_for_view;
use crate::text::{decimal, padded, push_decimal, push_padded, push_str};
use crate::usage::{sat_add, sat_sub, UsageState};
use crate::win::{Snapshot, SnapshotView};

verus! {

pub const NANOS_PER_SECOND: u64 = 1_000_000_000;

/// After an enforcement attempt the watch rests for 12 seconds.
pub const COOLDOWN_NS: u64 = 12_000_000_000;

/// A pat is worth XP, but clicking the cat is free and fast: at most one
/// pat counts every 4 seconds.
pub const PAT_COOLDOWN_NS: u64 = 4_000_000_000;

/// The trail keeps the last 40 events.
pub const TRAIL_MAX: usize = 40;

/// One line of the recent-events trail.
#[derive(Debug)]
pub struct TrailEntry {
    pub event: String,
    pub rule: String,
    pub detail: String,
    pub at: String,
}

pub struct TrailView {
    pub event: Seq<char>,
    pub rule: Seq<char>,
    pub detail: Seq<char>,
    pub at: Seq<char>,
}

impl View for TrailEntry {
    type V = TrailView;

    open spec fn view(&self) -> TrailView {
        TrailView { event: self.event@, rule: self.rule@, detail: self.detail@, at: self.at@ }
    }
}

impl Clone for TrailEntry {
    fn clone(&self) -> (r: Self)
        ensures
            r@ == self@,
    {
        TrailEntry {
            event: self.event.clone(),
            rule: self.rule.clone(),
            detail: self.detail.clone(),
            at: self.at.clone(),
        }
    }
}

pub open spec fn trail_view(t: Seq<TrailEntry>) -> Seq<TrailView> {
    t.map_values(|e: TrailEntry| e@)
}

/// A copy of the trail.
pub fn copy_trail(t: &Vec<TrailEntry>) -> (r: Vec<TrailEntry>)
    ensures
        trail_view(r@) == trail_view(t@),
{
    let mut r: Vec<TrailEntry> = Vec::new();
    let mut i: usize = 0;
    while i < t.len()
        invariant
            i <= t.len(),
            r@.len() == i,
            forall|k: int| 0 <= k < i ==> #[trigger] r@[k]@ == t@[k]@,
        decreases t.len() - i,
    {
        r.push(t[i].clone());
        i = i + 1;
    }
    assert(trail_view(r@) =~= trail_view(t@));
    r
}

/// `+m:ss` for a time since start.
pub open spec fn elapsed_text(secs: u64) -> Seq<char> {
    "+"@ + decimal((secs / 60) as nat) + ":"@ + padded((secs % 60) as nat, 2)
}

/// The trail after recording one event: the oldest entry goes once
/// there are more than 40.
pub open spec fn noted(t: Seq<TrailView>, e: TrailView) -> Seq<TrailView> {
    let u = t.push(e);
    if u.len() > TRAIL_MAX {
        u.drop_first()
    } else {
        u
    }
}

/// Records an event on the trail, stamped with the seconds since start.
pub fn note(trail: &mut Vec<TrailEntry>, event: &str, rule: &str, detail: &str, elapsed_secs: u64)
    ensures
        trail_view(final(trail)@) == noted(
            trail_view(old(trail)@),
            TrailView { event: event@, rule: rule@, detail: detail@, at: elapsed_text(elapsed_secs) },
        ),
{
    let mut at = String::from_str("+");
    push_decimal(&mut at, elapsed_secs / 60);
    push_str(&mut at, ":");
    push_padded(&mut at, elapsed_secs % 60, 2);
    assert(at@ =~= elapsed_text(elapsed_secs));
    let ghost before = trail_view(trail@);
    trail.push(
        TrailEntry {
            event: String::from_str(event),
            rule: String::from_str(rule),
            detail: String::from_str(detail),
            at,
        },
    );
    assert(trail_view(trail@) =~= before.push(
        TrailView { event: event@, rule: rule@, detail: detail@, at: elapsed_text(elapsed_secs) },
    ));
    if trail.len() > TRAIL_MAX {
        let ghost full = trail_view(trail@);
        trail.remove(0);
        assert(trail_view(trail@) =~= full.drop_first());
    }
}

/// Law: a trail that holds at most 40 events still does after one more.
pub proof fn trail_stays_bounded(t: Seq<TrailView>, e: TrailView)
    requires
        t.len() <= TRAIL_MAX,
    ensures
        noted(t, e).len() <= TRAIL_MAX,
        noted(t, e).last() == e,
{
}

/// What every surface needs to draw the affection meter. `gained` is
/// non-zero only on an award that crossed a level, and `awarded` is what
/// this particular event paid out.
#[derive(Debug, Clone, Copy, PartialEq, Eq, Structural)]
pub struct ProgressView {
    pub level: u32,
    pub xp: u32,
    pub needed: u32,
    pub total_xp: u64,
    pub closes: u32,
    pub pats: u32,
    pub gained: u32,
    pub awarded: u32,
}

impl ProgressView {
    pub fn of(p: &Progress, gained: u32, awarded: u32) -> (r: Self)
        ensures
            r == (ProgressView {
                level: p.level,
                xp: p.xp,
                needed: level_cost(p.level),
                total_xp: p.total_xp,
                closes: p.closes,
                pats: p.pats,
                gained,
                awarded,
            }),
    {
        ProgressView {
            level: p.level,
            xp: p.xp,
            needed: p.needed(),
            total_xp: p.total_xp,
            closes: p.closes,
            pats: p.pats,
            gained,
            awarded,
        }
    }
}

/// What was earned.
#[derive(Debug, Clone, Copy, PartialEq, Eq, Structural)]
pub enum Earned {
    Close,
    Pat,
}

pub open spec fn earned_amount(kind: Earned) -> u32 {
    match kind {
        Earned::Close => XP_CLOSE,
        Earned::Pat => XP_PAT,
    }
}

/// Banks the XP of a close or a pat: counts it, awards its XP, and
/// returns the levels gained. The single funnel for earning.
pub fn bank(p: &mut Progress, kind: Earned) -> (gained: u32)
    requires
        kind == Earned::Close ==> old(p).closes < u32::MAX,
        kind == Earned::Pat ==> old(p).pats < u32::MAX,
        award_outcome(*old(p), earned_amount(kind)).0 <= u32::MAX,
    ensures
        final(p).closes == old(p).closes + (if kind == Earned::Close { 1int } else { 0 }),
        final(p).pats == old(p).pats + (if kind == Earned::Pat { 1int } else { 0 }),
        final(p).level == award_outcome(*old(p), earned_amount(kind)).0,
        final(p).xp == award_outcome(*old(p), earned_amount(kind)).1,
        gained == award_outcome(*old(p), earned_amount(kind)).2,
        final(p).total_xp == sat_add(old(p).total_xp, earned_amount(kind) as u64),
{
    let amount = match kind {
        Earned::Close => {
            p.closes = p.closes + 1;
            XP_CLOSE
        },
        Earned::Pat => {
            p.pats = p.pats + 1;
            XP_PAT
        },
    };
    p.award(amount)
}

/// "now level N" for a level-up note.
pub fn level_note(level: u32) -> (r: String)
    ensures
        r@ == "now level "@ + decimal(level as nat),
{
    let mut r = String::from_str("now level ");
    push_decimal(&mut r, level as u64);
    r
}

/// A pat counts unless the previous one was less than 4 seconds ago.
pub fn pat_allowed(last_pat: Option<u64>, now: u64) -> (r: bool)
    ensures
        r == match last_pat {
            Some(last) => sat_sub(now, last) >= PAT_COOLDOWN_NS,
            None => true,
        },
{
    match last_pat {
        Some(last) => now.saturating_sub(last) >= PAT_COOLDOWN_NS,
        None => true,
    }
}

/// Snoozed until a moment still to come.
pub fn snoozing(snooze_until: Option<u64>, now: u64) -> (r: bool)
    ensures
        r == match snooze_until {
            Some(t) => now < t,
            None => false,
        },
{
    match snooze_until {
        Some(t) => now < t,
        None => false,
    }
}

/// The watch rests while snoozed or cooling down after an attempt.
pub fn paused(snooze_until: Option<u64>, cooldown_until: Option<u64>, now: u64) -> (r: bool)
    ensures
        r == ((snooze_until matches Some(t) && now < t) || (cooldown_until matches Some(t) && now < t)),
{
    snoozing(snooze_until, now) || snoozing(cooldown_until, now)
}

/// The end of a snooze of `minutes` starting at `now`.
pub fn snooze_end(now: u64, minutes: u64) -> (r: u64)
    requires
        now + minutes * 60 * NANOS_PER_SECOND <= u64::MAX,
    ensures
        r == now + minutes * 60 * NANOS_PER_SECOND,
{
    assert(minutes * 60 * NANOS_PER_SECOND <= u64::MAX);
    now + minutes * 60 * NANOS_PER_SECOND
}

/// The settings an enforcement attempt is judged by: while snoozed,
/// outside the schedule or with allowance left, patrol only nags.
pub open spec fn acting_mode(mode: EnforcementMode, snoozed: bool, usage: UsageState) -> EnforcementMode {
    if snoozed || usage == UsageState::OutsideSchedule || usage == UsageState::Available {
        EnforcementMode::Nag
    } else {
        mode
    }
}

/// Applies `acting_mode` to a copy of the settings.
pub fn settings_for_action(cfg: &Config, snoozed: bool, usage: UsageState) -> (r: Config)
    ensures
        r@ == (ConfigView { mode: acting_mode(cfg@.mode, snoozed, usage), ..cfg@ }),
{
    let mut c = cfg.clone();
    if snoozed || usage == UsageState::OutsideSchedule || usage == UsageState::Available {
        c.mode = EnforcementMode::Nag;
    }
    c
}

/// The decimal rendering of a signed number.
pub open spec fn signed_decimal(i: int) -> Seq<char> {
    if i < 0 {
        "-"@ + decimal((-i) as nat)
    } else {
        decimal(i as nat)
    }
}

fn push_signed(out: &mut String, i: isize)
    ensures
        final(out)@ == old(out)@ + signed_decimal(i as int),
{
    if i < 0 {
        push_str(out, "-");
        let magnitude: u64 = ((-(i + 1)) as u64) + 1;
        push_decimal(out, magnitude);
        assert(final(out)@ =~= old(out)@ + signed_decimal(i as int));
    } else {
        push_decimal(out, i as u64);
    }
}

/// The monitor's own memory between polls.
#[derive(Debug)]
pub struct Watch {
    /// the matched rule and window, as `<rule id>|<window>`
    pub match_id: String,
    /// when the current match started
    pub match_since: u64,
    /// the `<window>|<title>|<url>` already busted
    pub pending: String,
    pub last_hwnd: isize,
}

pub struct WatchView {
    pub match_id: Seq<char>,
    pub match_since: u64,
    pub pending: Seq<char>,
    pub last_hwnd: isize,
}

impl View for Watch {
    type V = WatchView;

    open spec fn view(&self) -> WatchView {
        WatchView {
            match_id: self.match_id@,
            match_since: self.match_since,
            pending: self.pending@,
            last_hwnd: self.last_hwnd,
        }
    }
}

/// What to do once a match's grace is over.
#[derive(Debug, Clone, Copy, PartialEq, Eq, Structural)]
pub enum Bust {
    /// nothing new: still counting down, or this page was already busted
    Quiet,
    /// make the cat cross, acting on nothing
    Nag,
    /// issue a ticket for this action
    Act(RuleAction),
}

/// What one poll saw.
#[derive(Debug)]
pub enum Sighting {
    Idle,
    Tracking { rule: Rule, remaining_ns: u64, spotted: bool, bust: Bust },
}

pub enum SightingView {
    Idle,
    Tracking { rule: RuleView, remaining_ns: u64, spotted: bool, bust: Bust },
}

impl View for Sighting {
    type V = SightingView;

    open spec fn view(&self) -> SightingView {
        match self {
            Sighting::Idle => SightingView::Idle,
            Sighting::Tracking { rule, remaining_ns, spotted, bust } => SightingView::Tracking {
                rule: rule@,
                remaining_ns: *remaining_ns,
                spotted: *spotted,
                bust: *bust,
            },
        }
    }
}

pub open spec fn grace_ns(grace: u64) -> u64 {
    if grace * NANOS_PER_SECOND > u64::MAX {
        u64::MAX
    } else {
        (grace * NANOS_PER_SECOND) as u64
    }
}

/// One poll with a window in front. The clock runs per matched rule and
/// window: switching to another rule starts the grace at zero, and the
/// next reel of the same rule does not restart it. Once the grace is
/// over, each distinct page is busted once: with a ticket for the action
/// in `close` mode, as a nag otherwise. A paused watch, or one the usage
/// rules hold back, sees nothing.
pub open spec fn watch_step_view(
    w: WatchView,
    c: ConfigView,
    s: SnapshotView,
    raw: Option<RuleView>,
    paused: bool,
    allowed: bool,
    now: u64,
) -> (WatchView, SightingView) {
    let pending = if s.hwnd != w.last_hwnd {
        Seq::empty()
    } else {
        w.pending
    };
    let hit = if paused || !allowed {
        None
    } else {
        raw
    };
    match hit {
        None => (WatchView { match_id: Seq::empty(), pending, last_hwnd: s.hwnd, ..w }, SightingView::Idle),
        Some(r) => {
            let id = r.id + "|"@ + signed_decimal(s.hwnd as int);
            let spotted = w.match_id != id;
            let since = if spotted {
                now
            } else {
                w.match_since
            };
            let remaining = sat_sub(grace_ns(r.grace), sat_sub(now, since));
            let key = signed_decimal(s.hwnd as int) + "|"@ + s.title + "|"@ + s.url;
            if remaining > 0 {
                (
                    WatchView { match_id: id, match_since: since, pending, last_hwnd: s.hwnd },
                    SightingView::Tracking { rule: r, remaining_ns: remaining, spotted, bust: Bust::Quiet },
                )
            } else if pending != key {
                (
                    WatchView { match_id: id, match_since: since, pending: key, last_hwnd: s.hwnd },
                    SightingView::Tracking {
                        rule: r,
                        remaining_ns: 0,
                        spotted,
                        bust: if c.mode == EnforcementMode::Close {
                            Bust::Act(action_for_view(r, s))
                        } else {
                            Bust::Nag
                        },
                    },
                )
            } else {
                (
                    WatchView { match_id: id, match_since: since, pending, last_hwnd: s.hwnd },
                    SightingView::Tracking { rule: r, remaining_ns: 0, spotted, bust: Bust::Quiet },
                )
            }
        },
    }
}

impl Watch {
    pub fn new(now: u64) -> (r: Self)
        ensures
            r@ == (WatchView { match_id: Seq::empty(), match_since: now, pending: Seq::empty(), last_hwnd: 0 }),
    {
        Watch { match_id: String::new(), match_since: now, pending: String::new(), last_hwnd: 0 }
    }

    /// One poll with `snap` in front, whose unrestricted match is `raw_hit`.
    pub fn step(
        &mut self,
        cfg: &Config,
        snap: &Snapshot,
        raw_hit: Option<&Rule>,
        paused: bool,
        allowed: bool,
        now: u64,
    ) -> (r: Sighting)
        ensures
            (final(self)@, r@) == watch_step_view(
                old(self)@,
                cfg@,
                snap@,
                match raw_hit {
                    Some(h) => Some(h@),
                    None => None,
                },
                paused,
                allowed,
                now,
            ),
    {
        if snap.hwnd != self.last_hwnd {
            self.last_hwnd = snap.hwnd;
            self.pending = String::new();
        }
        let hit = if paused || !allowed {
            None
        } else {
            raw_hit
        };
        let rule = match hit {
            None => {
                self.match_id = String::new();
                return Sighting::Idle;
            },
            Some(rule) => rule,
        };
        let mut id = rule.id.clone();
        push_str(&mut id, "|");
        push_signed(&mut id, snap.hwnd);
        let spotted = self.match_id != id;
        if spotted {
            self.match_id = id;
            self.match_since = now;
        }
        let held = now.saturating_sub(self.match_since);
        let grace = if rule.grace > u64::MAX / NANOS_PER_SECOND {
            u64::MAX
        } else {
            rule.grace * NANOS_PER_SECOND
        };
        let remaining = grace.saturating_sub(held);
        if remaining > 0 {
            return Sighting::Tracking { rule: rule.clone(), remaining_ns: remaining, spotted, bust: Bust::Quiet };
        }
        let mut key = String::new();
        push_signed(&mut key, snap.hwnd);
        push_str(&mut key, "|");
        push_str(&mut key, snap.title.as_str());
        push_str(&mut key, "|");
        push_str(&mut key, snap.url.as_str());
        if self.pending != key {
            self.pending = key;
            let bust = if cfg.mode.is_close() {
                Bust::Act(crate::rules::action_for(rule, snap))
            } else {
                Bust::Nag
            };
            Sighting::Tracking { rule: rule.clone(), remaining_ns: 0, spotted, bust }
        } else {
            Sighting::Tracking { rule: rule.clone(), remaining_ns: 0, spotted, bust: Bust::Quiet }
        }
    }

    /// A poll with no readable window in front: the match and the busted
    /// page are forgotten.
    pub fn lose(&mut self)
        ensures
            final(self)@ == (WatchView { match_id: Seq::empty(), pending: Seq::empty(), ..old(self)@ }),
    {
        self.match_id = String::new();
        self.pending = String::new();
    }
}

/// The poll busted the page.
pub open spec fn busted(o: SightingView) -> bool {
    match o {
        SightingView::Tracking { bust, .. } => bust != Bust::Quiet,
        SightingView::Idle => false,
    }
}

/// Law: a page is busted at most once while it stays in front: right
/// after a bust, the same snapshot and rule seen again is quiet.
pub proof fn page_busts_once(
    w: WatchView,
    c: ConfigView,
    s: SnapshotView,
    r: RuleView,
    now: u64,
    later: u64,
)
    requires
        later >= now,
    ensures
        ({
            let (w1, o1) = watch_step_view(w, c, s, Some(r), false, true, now);
            let (w2, o2) = watch_step_view(w1, c, s, Some(r), false, true, later);
            busted(o1) ==> !busted(o2) && o2 is Tracking
        }),
{
}

/// Law: no bust, and so no ticket, ever comes from a paused watch, one
/// the usage rules hold back, or a match whose grace has not run out.
pub proof fn no_bust_before_grace(
    w: WatchView,
    c: ConfigView,
    s: SnapshotView,
    raw: Option<RuleView>,
    paused: bool,
    allowed: bool,
    now: u64,
)
    ensures
        ({
            let (_, o) = watch_step_view(w, c, s, raw, paused, allowed, now);
            &&& (paused || !allowed) ==> o is Idle
            &&& match o {
                SightingView::Tracking { remaining_ns, bust, .. } => {
                    &&& remaining_ns > 0 ==> bust == Bust::Quiet
                    &&& c.mode == EnforcementMode::Nag ==> !(bust is Act)
                },
                SightingView::Idle => true,
            }
        }),
{
}

/// Law: a poll the watch does not see (paused, or held back by the usage
/// rules) forgets the match, so the next poll that sees a rule starts its
/// grace from zero: when the allowance runs out, the rule's full grace
/// still comes before any bust.
pub proof fn grace_restarts_after_a_held_back_poll(
    w: WatchView,
    c: ConfigView,
    s: SnapshotView,
    raw: Option<RuleView>,
    paused: bool,
    allowed: bool,
    now: u64,
    s2: SnapshotView,
    r: RuleView,
    later: u64,
)
    requires
        paused || !allowed,
    ensures
        ({
            let (w1, o1) = watch_step_view(w, c, s, raw, paused, allowed, now);
            let (_, o2) = watch_step_view(w1, c, s2, Some(r), false, true, later);
            &&& o1 is Idle
            &&& o2 matches SightingView::Tracking { spotted, remaining_ns, bust, .. } && spotted && remaining_ns
                == grace_ns(r.grace) && (grace_ns(r.grace) > 0 ==> bust == Bust::Quiet)
        }),
{
    let (w1, _) = watch_step_view(w, c, s, raw, paused, allowed, now);
    let id = r.id + "|"@ + signed_decimal(s2.hwnd as int);
    assert(w1.match_id.len() == 0);
    assert(id.len() > 0) by {
        assert(id == r.id + ("|"@ + signed_decimal(s2.hwnd as int)));
        reveal_strlit("|");
    }
    assert(w1.match_id != id);
}

/// Law: the busted-page memory belongs to one window: a poll with another
/// window in front than the poll before forgets the page busted there,
/// unless that poll itself busts.
pub proof fn window_change_forgets_busted_page(
    w: WatchView,
    c: ConfigView,
    s: SnapshotView,
    raw: Option<RuleView>,
    paused: bool,
    allowed: bool,
    now: u64,
)
    requires
        s.hwnd != w.last_hwnd,
    ensures
        ({
            let (w1, o1) = watch_step_view(w, c, s, raw, paused, allowed, now);
            w1.pending.len() == 0 || busted(o1)
        }),
{
}

/// Law: a window that comes to the front is busted once its grace runs
/// out, whatever page was busted there before it left: with the rule
/// matching it at `now` and again at `later`, the rule's grace or more
/// after, one of the two polls busts. (The match's clock must not have
/// started after `now`.)
pub proof fn window_brought_to_front_busts_again(
    w: WatchView,
    c: ConfigView,
    s: SnapshotView,
    r: RuleView,
    now: u64,
    later: u64,
)
    requires
        s.hwnd != w.last_hwnd,
        w.match_since <= now,
        now + grace_ns(r.grace) <= later,
    ensures
        ({
            let (w1, o1) = watch_step_view(w, c, s, Some(r), false, true, now);
            let (_, o2) = watch_step_view(w1, c, s, Some(r), false, true, later);
            busted(o1) || busted(o2)
        }),
{
    let key = signed_decimal(s.hwnd as int) + "|"@ + s.title + "|"@ + s.url;
    assert(key.len() > 0) by {
        reveal_strlit("|");
        assert(key == signed_decimal(s.hwnd as int) + ("|"@ + s.title + "|"@ + s.url));
    }
}

/// Law: switching away and back does not exempt a page: after a poll with
/// another window in front, the page in the window that comes back is
/// busted again once the rule's grace has run out.
pub proof fn page_busted_again_after_switching_back(
    w: WatchView,
    c: ConfigView,
    s: SnapshotView,
    r: RuleView,
    s2: SnapshotView,
    raw2: Option<RuleView>,
    paused2: bool,
    allowed2: bool,
    t2: u64,
    t3: u64,
    t4: u64,
)
    requires
        s2.hwnd != s.hwnd,
        w.match_since <= t2 <= t3,
        t3 + grace_ns(r.grace) <= t4,
    ensures
        ({
            let (w2, _) = watch_step_view(w, c, s2, raw2, paused2, allowed2, t2);
            let (w3, o3) = watch_step_view(w2, c, s, Some(r), false, true, t3);
            let (_, o4) = watch_step_view(w3, c, s, Some(r), false, true, t4);
            busted(o3) || busted(o4)
        }),
{
    let (w2, _) = watch_step_view(w, c, s2, raw2, paused2, allowed2, t2);
    window_brought_to_front_busts_again(w2, c, s, r, t3, t4);
}

/// Law: the grace clock runs on while the same rule keeps matching the
/// same window: polled at `now` and again at `later`, the rule's grace or
/// more after, the second poll finds the grace over. (The match's clock
/// must not have started after `now`.)
pub proof fn grace_runs_on_while_the_match_holds(
    w: WatchView,
    c: ConfigView,
    s: SnapshotView,
    r: RuleView,
    now: u64,
    later: u64,
)
    requires
        w.match_since <= now,
        now + grace_ns(r.grace) <= later,
    ensures
        ({
            let (w1, _) = watch_step_view(w, c, s, Some(r), false, true, now);
            let (_, o2) = watch_step_view(w1, c, s, Some(r), false, true, later);
            o2 matches SightingView::Tracking { remaining_ns, spotted, .. } && remaining_ns == 0 && !spotted
        }),
{
}

/// Law: a rule that starts matching a window (another rule, or another
/// window, than the poll before matched) starts its grace from zero.
pub proof fn new_match_starts_its_grace(w: WatchView, c: ConfigView, s: SnapshotView, r: RuleView, now: u64)
    requires
        w.match_id != r.id + "|"@ + signed_decimal(s.hwnd as int),
    ensures
        ({
            let (_, o) = watch_step_view(w, c, s, Some(r), false, true, now);
            o matches SightingView::Tracking { remaining_ns, spotted, .. } && spotted && remaining_ns == grace_ns(
                r.grace,
            )
        }),
{
}

/// Law: what a bust does follows the mode: in `close` mode it issues a
/// ticket for the rule's action on this window, in `nag` mode it only
/// nags.
pub proof fn bust_follows_the_mode(
    w: WatchView,
    c: ConfigView,
    s: SnapshotView,
    r: RuleView,
    paused: bool,
    allowed: bool,
    now: u64,
)
    ensures
        ({
            let (_, o) = watch_step_view(w, c, s, Some(r), paused, allowed, now);
            busted(o) ==> (o matches SightingView::Tracking { bust, .. } && bust == (if c.mode
                == EnforcementMode::Close {
                Bust::Act(action_for_view(r, s))
            } else {
                Bust::Nag
            }))
        }),
{
}

} // verus!
