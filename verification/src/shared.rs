//! The state the watch and the commands share, and each thing that
//! happens to it: a poll of the foreground window, an enforcement attempt,
//! a pat, a snooze, a change of settings.
//!
//! Every method decides; the caller carries out what it names (reading
//! the foreground window, writing files, sending input, telling the
//! windows) and reports back. Instants are nanoseconds on the caller's
//! monotonic clock.

use vstd::prelude::*;
use crate::action_tickets::{
    authorize_view, live, make_room, ticket_for, ActionTickets, AuthorizedAction, AuthorizedView, EXPIRY_GRACE_NS,
};
use crate::config::{
    action_text, config_issues, copy_rules, copy_strings, default_rules, default_rules_view, rules_view, strings_view, Config, ConfigView,
    EnforcementMode, Rule, RuleAction, RuleView,
};
use crate::patrol::{
    acting_mode, bank, copy_trail, earned_amount, elapsed_text, level_note, noted, note, settings_for_action, trail_view,
    watch_step_view, Bust, Earned, ProgressView, Sighting, SightingView, TrailEntry, TrailView, Watch,
    COOLDOWN_NS, NANOS_PER_SECOND, PAT_COOLDOWN_NS,
};
use crate::progress::{award_outcome, level_cost, Progress, XP_PAT};
use crate::rules::{haystack, haystack_view, match_index};
use crate::text::{decimal, push_decimal, push_str};
use crate::usage::{
    allowance_seconds, sat_add, sat_sub, status_state, status_used, tick_view, CivilTime, DailyUsage,
    TrackerView, UsageStatus, UsageTracker, UsageView, FLUSH_INTERVAL_NS,
};
use crate::win::{
    blocked_reason, close_check, close_verdict, confirm_step, confirmation_outcome,
    confirmation_result, confirmation_view, dispatch_result, ActResult, ConfirmStep, Dispatch, Snapshot,
    SnapshotView, CONFIRM_INTERVAL_MS, CONFIRM_WINDOW_NS,
};

verus! {

/// Everything the watch and the commands share.
#[derive(Debug)]
pub struct Shared {
    pub cfg: Config,
    /// what loading the files had to say
    pub notes: Vec<String>,
    pub snooze_until: Option<u64>,
    pub cooldown_until: Option<u64>,
    /// the foreground window of the last poll
    pub last: Option<Snapshot>,
    /// the label of the rule being watched
    pub matched: Option<String>,
    /// the grace left on the watched match
    pub remaining_ns: u64,
    pub trail: Vec<TrailEntry>,
    pub started: u64,
    pub progress: Progress,
    pub last_pat: Option<u64>,
    pub action_tickets: ActionTickets,
    pub usage: UsageTracker,
    pub watch: Watch,
}

/// Whole seconds since `started`, as trail entries are stamped.
pub open spec fn stamp(started: u64, now: u64) -> u64 {
    (sat_sub(now, started) / NANOS_PER_SECOND) as u64
}

/// The trail entry recorded at `now`.
pub open spec fn entry(event: Seq<char>, rule: Seq<char>, detail: Seq<char>, started: u64, now: u64) -> TrailView {
    TrailView { event, rule, detail, at: elapsed_text(stamp(started, now)) }
}

/// The rule that applies to `s` under `c`, if any.
pub open spec fn matched_rule(c: ConfigView, s: SnapshotView) -> Option<RuleView> {
    match match_index(c, s) {
        Some(i) => Some(c.rules[i]),
        None => None,
    }
}

/// Whether the tracker holds a change due to be written at `now`.
pub open spec fn flush_due(t: TrackerView, now: u64) -> bool {
    t.dirty && sat_sub(now, t.last_flush) >= FLUSH_INTERVAL_NS
}

/// A ticket to issue for a bust in `close` mode.
#[derive(Debug)]
pub struct TicketRequest {
    pub target: Snapshot,
    pub rule: Rule,
    pub action: RuleAction,
    pub countdown_seconds: u64,
}

pub struct TicketView {
    pub target: SnapshotView,
    pub rule: RuleView,
    pub action: RuleAction,
    pub countdown_seconds: u64,
}

impl View for TicketRequest {
    type V = TicketView;

    open spec fn view(&self) -> TicketView {
        TicketView {
            target: self.target@,
            rule: self.rule@,
            action: self.action,
            countdown_seconds: self.countdown_seconds,
        }
    }
}

/// What a poll has to tell the cat.
#[derive(Debug)]
pub enum Signal {
    /// whether a match is being watched, its label and the grace left
    Status { watching: bool, label: String, remaining_ns: u64 },
    /// the cat gets up; in `close` mode with a ticket to act on
    Bust { rule_id: String, label: String, mode: EnforcementMode, countdown: u64, ticket: Option<TicketRequest> },
    /// nothing new
    Quiet,
}

pub enum SignalView {
    Status { watching: bool, label: Seq<char>, remaining_ns: u64 },
    Bust { rule_id: Seq<char>, label: Seq<char>, mode: EnforcementMode, countdown: u64, ticket: Option<TicketView> },
    Quiet,
}

impl View for Signal {
    type V = SignalView;

    open spec fn view(&self) -> SignalView {
        match self {
            Signal::Status { watching, label, remaining_ns } => SignalView::Status {
                watching: *watching,
                label: label@,
                remaining_ns: *remaining_ns,
            },
            Signal::Bust { rule_id, label, mode, countdown, ticket } => SignalView::Bust {
                rule_id: rule_id@,
                label: label@,
                mode: *mode,
                countdown: *countdown,
                ticket: match ticket {
                    Some(t) => Some(t@),
                    None => None,
                },
            },
            Signal::Quiet => SignalView::Quiet,
        }
    }
}

/// What one poll decided: the signal for the cat, and the usage record
/// to write when one is due.
#[derive(Debug)]
pub struct Poll {
    pub signal: Signal,
    pub flush: Option<DailyUsage>,
}

pub open spec fn usage_opt(u: Option<DailyUsage>) -> Option<UsageView> {
    match u {
        Some(r) => Some(r@),
        None => None,
    }
}

pub open spec fn idle_status() -> SignalView {
    SignalView::Status { watching: false, label: Seq::empty(), remaining_ns: 0 }
}

/// A poll that found no readable foreground window: the usage clock still
/// advances, with nothing countable, and the match is forgotten.
pub open spec fn absent_poll(o: Shared, n: Shared, civil: CivilTime, now: u64, p: Poll) -> bool {
    let (u, _) = tick_view(o.usage@, o.cfg@, civil, now, false);
    &&& n.usage@ == u
    &&& usage_opt(p.flush) == (if flush_due(u, now) { Some(u.record) } else { None })
    &&& n.watch@.match_id == Seq::<char>::empty()
    &&& n.watch@.pending == Seq::<char>::empty()
    &&& n.watch@.match_since == o.watch@.match_since
    &&& n.watch@.last_hwnd == o.watch@.last_hwnd
    &&& n.last is None
    &&& n.matched is None
    &&& n.remaining_ns == 0
    &&& trail_view(n.trail@) == trail_view(o.trail@)
    &&& p.signal@ == idle_status()
}

/// A poll with `s` in front. The rule that matches is counted against the
/// allowance; the watch sees it unless patrol is snoozed, cooling down or
/// held back by the usage rules. A newly spotted match and a bust are
/// noted on the trail.
pub open spec fn present_poll(o: Shared, n: Shared, s: SnapshotView, civil: CivilTime, now: u64, p: Poll) -> bool {
    let paused = (o.snooze_until matches Some(t) && now < t) || (o.cooldown_until matches Some(t) && now < t);
    let raw = matched_rule(o.cfg@, s);
    let (u, allowed) = tick_view(o.usage@, o.cfg@, civil, now, raw is Some);
    let (w, sight) = watch_step_view(o.watch@, o.cfg@, s, raw, paused, allowed, now);
    let before = trail_view(o.trail@);
    &&& n.usage@ == u
    &&& usage_opt(p.flush) == (if flush_due(u, now) { Some(u.record) } else { None })
    &&& n.watch@ == w
    &&& n.last matches Some(l) && l@ == s
    &&& match sight {
        SightingView::Idle => {
            &&& n.matched is None
            &&& n.remaining_ns == 0
            &&& trail_view(n.trail@) == before
            &&& p.signal@ == idle_status()
        },
        SightingView::Tracking { rule, remaining_ns, spotted, bust } => {
            let seen = if spotted {
                noted(before, entry("spotted"@, rule.id, s.title, o.started, now))
            } else {
                before
            };
            &&& n.matched matches Some(m) && m@ == rule.label
            &&& n.remaining_ns == remaining_ns
            &&& if remaining_ns > 0 {
                &&& trail_view(n.trail@) == seen
                &&& p.signal@ == (SignalView::Status { watching: true, label: rule.label, remaining_ns })
            } else if bust == Bust::Quiet {
                &&& trail_view(n.trail@) == seen
                &&& p.signal@ == SignalView::Quiet
            } else {
                &&& trail_view(n.trail@) == noted(seen, entry("caught"@, rule.id, s.title, o.started, now))
                &&& p.signal@ == (SignalView::Bust {
                    rule_id: rule.id,
                    label: rule.label,
                    mode: o.cfg.mode,
                    countdown: o.cfg.countdown_seconds,
                    ticket: match bust {
                        Bust::Act(a) => Some(
                            TicketView { target: s, rule, action: a, countdown_seconds: o.cfg.countdown_seconds },
                        ),
                        _ => None,
                    },
                })
            }
        },
    }
}

/// Everything a poll leaves alone.
pub open spec fn poll_keeps(o: Shared, n: Shared) -> bool {
    &&& n.cfg == o.cfg
    &&& n.notes == o.notes
    &&& n.snooze_until == o.snooze_until
    &&& n.cooldown_until == o.cooldown_until
    &&& n.started == o.started
    &&& n.progress == o.progress
    &&& n.last_pat == o.last_pat
    &&& n.action_tickets@ == o.action_tickets@
}

impl Shared {
    /// The state at start-up.
    pub fn new(cfg: Config, notes: Vec<String>, progress: Progress, usage: DailyUsage, now: u64) -> (r: Self)
        ensures
            r.cfg == cfg,
            r.notes == notes,
            r.snooze_until is None,
            r.cooldown_until is None,
            r.last is None,
            r.matched is None,
            r.remaining_ns == 0,
            r.trail@.len() == 0,
            r.started == now,
            r.progress == progress,
            r.last_pat is None,
            r.action_tickets@.len() == 0,
            r.usage@ == (TrackerView {
                record: usage@,
                last_sample: now,
                last_flush: now,
                last_countable: false,
                remainder: 0,
                dirty: false,
            }),
            r.watch@.match_id.len() == 0,
            r.watch@.pending.len() == 0,
            r.watch@.match_since == now,
            r.watch@.last_hwnd == 0,
    {
        Shared {
            cfg,
            notes,
            snooze_until: None,
            cooldown_until: None,
            last: None,
            matched: None,
            remaining_ns: 0,
            trail: Vec::new(),
            started: now,
            progress,
            last_pat: None,
            action_tickets: ActionTickets::default(),
            usage: UsageTracker::new(usage, now),
            watch: Watch::new(now),
        }
    }

    /// How long the monitor sleeps between polls, and how stale an
    /// address-bar read may be, in milliseconds: the settings, but never
    /// faster than 250 and 500.
    pub fn intervals(&self) -> (r: (u64, u64))
        ensures
            r.0 == (if self.cfg.poll_ms < 250 {
                250
            } else {
                self.cfg.poll_ms
            }),
            r.1 == (if self.cfg.url_poll_ms < 500 {
                500
            } else {
                self.cfg.url_poll_ms
            }),
    {
        let poll = if self.cfg.poll_ms < 250 {
            250
        } else {
            self.cfg.poll_ms
        };
        let url = if self.cfg.url_poll_ms < 500 {
            500
        } else {
            self.cfg.url_poll_ms
        };
        (poll, url)
    }

    /// Snoozed until a moment still to come.
    pub fn snoozing(&self, now: u64) -> (r: bool)
        ensures
            r == (self.snooze_until matches Some(t) && now < t),
    {
        crate::patrol::snoozing(self.snooze_until, now)
    }

    /// Records an event on the trail, stamped with the time since start.
    pub fn note(&mut self, event: &str, rule: &str, detail: &str, now: u64)
        ensures
            trail_view(final(self).trail@) == noted(
                trail_view(old(self).trail@),
                entry(event@, rule@, detail@, old(self).started, now),
            ),
            *final(self) == (Shared { trail: final(self).trail, ..*old(self) }),
    {
        let secs = now.saturating_sub(self.started) / NANOS_PER_SECOND;
        note(&mut self.trail, event, rule, detail, secs);
    }

    /// One poll of the monitor: `snap` is the foreground window, if one
    /// could be read, `civil` the local time and `now` the monotonic clock.
    pub fn poll(&mut self, snap: Option<Snapshot>, civil: CivilTime, now: u64) -> (p: Poll)
        ensures
            poll_keeps(*old(self), *final(self)),
            match snap {
                None => absent_poll(*old(self), *final(self), civil, now, p),
                Some(s) => present_poll(*old(self), *final(self), s@, civil, now, p),
            },
    {
        match snap {
            None => self.poll_absent(civil, now),
            Some(s) => self.poll_present(s, civil, now),
        }
    }

    fn poll_absent(&mut self, civil: CivilTime, now: u64) -> (p: Poll)
        ensures
            poll_keeps(*old(self), *final(self)),
            absent_poll(*old(self), *final(self), civil, now, p),
    {
        // The usage clock advances even with nothing readable in front;
        // otherwise the next matched sample would charge the whole gap.
        let _ = self.usage.tick(&self.cfg, civil, now, false);
        let flush = if self.usage.should_flush(now) {
            Some(self.usage.record().clone())
        } else {
            None
        };
        self.last = None;
        self.matched = None;
        self.remaining_ns = 0;
        self.watch.lose();
        Poll { signal: Signal::Status { watching: false, label: String::new(), remaining_ns: 0 }, flush }
    }

    fn poll_present(&mut self, snap: Snapshot, civil: CivilTime, now: u64) -> (p: Poll)
        ensures
            poll_keeps(*old(self), *final(self)),
            present_poll(*old(self), *final(self), snap@, civil, now, p),
    {
        let ghost o = *old(self);
        let paused = crate::patrol::paused(self.snooze_until, self.cooldown_until, now);
        let raw_hit: Option<Rule> = match crate::rules::matches(&self.cfg, &snap) {
            Some(r) => Some(r.clone()),
            None => None,
        };
        let ghost raw = if raw_hit is Some {
            Some(raw_hit->0@)
        } else {
            None::<RuleView>
        };
        assert(raw == matched_rule(o.cfg@, snap@));
        let decision = self.usage.tick(&self.cfg, civil, now, raw_hit.is_some());
        let flush = if self.usage.should_flush(now) {
            Some(self.usage.record().clone())
        } else {
            None
        };
        let sight = self.watch.step(&self.cfg, &snap, raw_hit.as_ref(), paused, decision.enforcement_allowed, now);
        let signal = match sight {
            Sighting::Idle => {
                self.matched = None;
                self.remaining_ns = 0;
                Signal::Status { watching: false, label: String::new(), remaining_ns: 0 }
            },
            Sighting::Tracking { rule, remaining_ns, spotted, bust } => {
                if spotted {
                    self.note("spotted", rule.id.as_str(), snap.title.as_str(), now);
                }
                self.matched = Some(rule.label.clone());
                self.remaining_ns = remaining_ns;
                if remaining_ns > 0 {
                    Signal::Status { watching: true, label: rule.label.clone(), remaining_ns }
                } else {
                    match bust {
                        Bust::Quiet => Signal::Quiet,
                        _ => {
                            self.note("caught", rule.id.as_str(), snap.title.as_str(), now);
                            let ticket = match bust {
                                Bust::Act(action) => Some(
                                    TicketRequest {
                                        target: snap.clone(),
                                        rule: rule.clone(),
                                        action,
                                        countdown_seconds: self.cfg.countdown_seconds,
                                    },
                                ),
                                _ => None,
                            };
                            Signal::Bust {
                                rule_id: rule.id.clone(),
                                label: rule.label.clone(),
                                mode: self.cfg.mode,
                                countdown: self.cfg.countdown_seconds,
                                ticket,
                            }
                        },
                    }
                }
            },
        };
        self.last = Some(snap);
        Poll { signal, flush }
    }

    /// The usage record of a poll was written at `now`.
    pub fn usage_flushed(&mut self, now: u64)
        ensures
            final(self).usage@ == (TrackerView { dirty: false, last_flush: now, ..old(self).usage@ }),
            *final(self) == (Shared { usage: final(self).usage, ..*old(self) }),
    {
        self.usage.mark_flushed(now);
    }

    /// Issues the ticket a bust asked for; `fresh_id` is a newly generated
    /// unguessable ID, or `None` when none could be made.
    pub fn issue_ticket(&mut self, req: &TicketRequest, now: u64, fresh_id: Option<String>) -> (r: Option<String>)
        requires
            now + req.countdown_seconds * NANOS_PER_SECOND + EXPIRY_GRACE_NS <= u64::MAX,
        ensures
            match fresh_id {
                None => r is None && final(self).action_tickets@ == make_room(live(old(self).action_tickets@, now)),
                Some(id) => r == Some(id) && final(self).action_tickets@ == make_room(
                    live(old(self).action_tickets@, now),
                ).push(
                    ticket_for(
                        id@,
                        req.target@,
                        req.rule@,
                        req.action,
                        (req.countdown_seconds * NANOS_PER_SECOND) as u64,
                        now,
                    ),
                ),
            },
            *final(self) == (Shared { action_tickets: final(self).action_tickets, ..*old(self) }),
    {
        let countdown_ns = req.countdown_seconds * NANOS_PER_SECOND;
        self.action_tickets.issue(&req.target, &req.rule, req.action, countdown_ns, now, fresh_id)
    }

    /// Snoozes patrol for `minutes`, or the configured snooze, from `now`;
    /// outstanding tickets are dropped. Returns the minutes.
    pub fn snooze(&mut self, minutes: Option<u64>, now: u64) -> (mins: u64)
        requires
            now + (match minutes {
                Some(m) => m,
                None => old(self).cfg.snooze_minutes,
            }) * 60 * NANOS_PER_SECOND <= u64::MAX,
        ensures
            mins == (match minutes {
                Some(m) => m,
                None => old(self).cfg.snooze_minutes,
            }),
            final(self).snooze_until == Some((now + mins * 60 * NANOS_PER_SECOND) as u64),
            final(self).action_tickets@.len() == 0,
            trail_view(final(self).trail@) == noted(
                trail_view(old(self).trail@),
                entry("snooze"@, Seq::empty(), decimal(mins as nat) + " min"@, old(self).started, now),
            ),
            *final(self) == (Shared {
                snooze_until: final(self).snooze_until,
                action_tickets: final(self).action_tickets,
                trail: final(self).trail,
                ..*old(self)
            }),
    {
        let mins = match minutes {
            Some(m) => m,
            None => self.cfg.snooze_minutes,
        };
        self.snooze_until = Some(crate::patrol::snooze_end(now, mins));
        self.action_tickets.clear();
        let mut detail = String::new();
        push_decimal(&mut detail, mins);
        push_str(&mut detail, " min");
        proof {
            reveal_strlit("");
            assert(""@ =~= Seq::<char>::empty());
        }
        self.note("snooze", "", detail.as_str(), now);
        mins
    }

    /// The tray's snooze: the configured minutes, without a trail entry.
    pub fn tray_snooze(&mut self, now: u64)
        requires
            now + old(self).cfg.snooze_minutes * 60 * NANOS_PER_SECOND <= u64::MAX,
        ensures
            final(self).snooze_until == Some((now + old(self).cfg.snooze_minutes * 60 * NANOS_PER_SECOND) as u64),
            final(self).action_tickets@.len() == 0,
            *final(self) == (Shared {
                snooze_until: final(self).snooze_until,
                action_tickets: final(self).action_tickets,
                ..*old(self)
            }),
    {
        self.snooze_until = Some(crate::patrol::snooze_end(now, self.cfg.snooze_minutes));
        self.action_tickets.clear();
    }

    pub fn cancel_snooze(&mut self)
        ensures
            *final(self) == (Shared { snooze_until: None, ..*old(self) }),
    {
        self.snooze_until = None;
    }

    /// The tray's patrol switch: flips `enabled` and drops outstanding
    /// tickets. Returns the new setting.
    pub fn toggle_enabled(&mut self) -> (on: bool)
        ensures
            on == !old(self).cfg.enabled,
            final(self).cfg@ == (ConfigView { enabled: on, ..old(self).cfg@ }),
            config_issues(old(self).cfg@).len() == 0 ==> config_issues(final(self).cfg@).len() == 0,
            final(self).action_tickets@.len() == 0,
            *final(self) == (Shared { cfg: final(self).cfg, action_tickets: final(self).action_tickets, ..*old(self) }),
    {
        self.cfg.enabled = !self.cfg.enabled;
        self.action_tickets.clear();
        proof {
            if config_issues(old(self).cfg@).len() == 0 {
                crate::config::switch_and_rule_reset_keep_settings_valid(old(self).cfg@, self.cfg.enabled);
            }
        }
        self.cfg.enabled
    }

    /// Puts the built-in rules back and drops outstanding tickets. Returns
    /// a copy of the rules.
    pub fn reset_rules(&mut self) -> (r: Vec<Rule>)
        ensures
            rules_view(r@) == default_rules_view(),
            final(self).cfg@ == (ConfigView { rules: default_rules_view(), ..old(self).cfg@ }),
            config_issues(old(self).cfg@).len() == 0 ==> config_issues(final(self).cfg@).len() == 0,
            final(self).action_tickets@.len() == 0,
            *final(self) == (Shared { cfg: final(self).cfg, action_tickets: final(self).action_tickets, ..*old(self) }),
    {
        self.cfg.rules = default_rules();
        self.action_tickets.clear();
        proof {
            if config_issues(old(self).cfg@).len() == 0 {
                crate::config::switch_and_rule_reset_keep_settings_valid(old(self).cfg@, old(self).cfg.enabled);
            }
        }
        copy_rules(&self.cfg.rules)
    }

    /// Takes settings that passed validation and were saved: outstanding
    /// tickets were issued under the old ones and are dropped. Settings
    /// that fail validation never replace the live ones.
    pub fn apply_config(&mut self, cfg: Config, now: u64)
        requires
            config_issues(cfg@).len() == 0,
        ensures
            final(self).cfg == cfg,
            final(self).action_tickets@.len() == 0,
            trail_view(final(self).trail@) == noted(
                trail_view(old(self).trail@),
                entry("settings"@, Seq::empty(), "saved"@, old(self).started, now),
            ),
            *final(self) == (Shared {
                cfg: final(self).cfg,
                action_tickets: final(self).action_tickets,
                trail: final(self).trail,
                ..*old(self)
            }),
    {
        self.cfg = cfg;
        self.action_tickets.clear();
        proof {
            reveal_strlit("");
            assert(""@ =~= Seq::<char>::empty());
        }
        self.note("settings", "", "saved", now);
    }

    /// The start of an enforcement attempt: consumes ticket `action_id`
    /// and checks it against `fresh`, the foreground window read just now.
    /// While snoozed, outside the schedule or with allowance left, patrol
    /// only nags and so cannot act. A refusal is noted on the trail; an
    /// authorized ticket becomes a close attempt, the only way to get one.
    pub fn begin_act(&mut self, action_id: &str, fresh: &Snapshot, civil: CivilTime, now: u64) -> (r: Result<
        CloseAttempt,
        ActResult,
    >)
        ensures
            ({
                let snoozed = old(self).snooze_until matches Some(t) && now < t;
                let usage = status_state(old(self).usage@, old(self).cfg@, civil);
                let c = ConfigView { mode: acting_mode(old(self).cfg@.mode, snoozed, usage), ..old(self).cfg@ };
                let (tickets, out) = authorize_view(old(self).action_tickets@, action_id@, fresh@, c, now);
                &&& final(self).action_tickets@ == tickets
                &&& match out {
                    Ok(a) => {
                        &&& r matches Ok(x) && x@ == attempt_start(a)
                        &&& trail_view(final(self).trail@) == trail_view(old(self).trail@)
                    },
                    Err(e) => {
                        &&& r matches Err(x) && !x.acted && x.reason@ == e
                        &&& trail_view(final(self).trail@) == noted(
                            trail_view(old(self).trail@),
                            entry("skipped"@, Seq::empty(), e, old(self).started, now),
                        )
                    },
                }
            }),
            *final(self) == (Shared { action_tickets: final(self).action_tickets, trail: final(self).trail, ..*old(self) }),
    {
        let usage = self.usage.status(&self.cfg, civil).state;
        let cfg = settings_for_action(&self.cfg, self.snoozing(now), usage);
        match self.action_tickets.authorize(action_id, fresh, &cfg, now) {
            Ok(a) => Ok(
                CloseAttempt {
                    authorized: a,
                    stage: AttemptStage::Check,
                    deadline: 0,
                    delivered: false,
                    confirmed: false,
                    result: None,
                },
            ),
            Err(reason) => {
                proof {
                    reveal_strlit("");
                    assert(""@ =~= Seq::<char>::empty());
                }
                self.note("skipped", "", reason, now);
                Err(ActResult { acted: false, reason: String::from_str(reason) })
            },
        }
    }

    /// The end of an attempt: whatever came of it, the watch rests for 12
    /// seconds and the outcome goes on the trail. Only an attempt whose
    /// action was delivered and whose target was then confirmed gone
    /// earns anything: then the close is banked and what the meters show
    /// comes back beside the outcome.
    pub fn finish_act(&mut self, attempt: CloseAttempt, now: u64) -> (r: (ActResult, Option<ProgressView>))
        requires
            attempt@.stage == AttemptStage::Done,
            attempt_wf(attempt@),
            now + COOLDOWN_NS <= u64::MAX,
            attempt_acted(attempt@) ==> old(self).progress.closes < u32::MAX && award_outcome(
                old(self).progress,
                crate::progress::XP_CLOSE,
            ).0 <= u32::MAX,
        ensures
            attempt@.result == Some((r.0.acted, r.0.reason@)),
            r.1 is Some ==> attempt@.delivered && attempt@.confirmed,
            final(self).cooldown_until == Some((now + COOLDOWN_NS) as u64),
            ({
                let closed = noted(
                    trail_view(old(self).trail@),
                    entry(
                        if r.0.acted {
                            "closed"@
                        } else {
                            "skipped"@
                        },
                        Seq::empty(),
                        r.0.reason@,
                        old(self).started,
                        now,
                    ),
                );
                &&& !r.0.acted ==> r.1 is None && trail_view(final(self).trail@) == closed
                &&& r.0.acted ==> (r.1 matches Some(v) && banked(
                    old(self).progress,
                    closed,
                    old(self).started,
                    *final(self),
                    Earned::Close,
                    now,
                    v,
                ))
            }),
            *final(self) == (Shared {
                cooldown_until: final(self).cooldown_until,
                progress: final(self).progress,
                trail: final(self).trail,
                ..*old(self)
            }),
            !r.0.acted ==> final(self).progress == old(self).progress,
    {
        let result = match attempt.result {
            Some(result) => result,
            None => ActResult { acted: false, reason: String::new() },
        };
        self.cooldown_until = Some(now + COOLDOWN_NS);
        proof {
            reveal_strlit("");
            assert(""@ =~= Seq::<char>::empty());
        }
        if result.acted {
            self.note("closed", "", result.reason.as_str(), now);
            let view = self.bank_xp(Earned::Close, now);
            (result, Some(view))
        } else {
            self.note("skipped", "", result.reason.as_str(), now);
            (result, None)
        }
    }

    /// An attempt whose confirmation could not be carried out at all: it
    /// earns nothing, and the watch rests as after any attempt.
    pub fn finish_lost(&mut self, now: u64) -> (r: ActResult)
        requires
            now + COOLDOWN_NS <= u64::MAX,
        ensures
            !r.acted,
            r.reason@ == "close confirmation failed"@,
            final(self).cooldown_until == Some((now + COOLDOWN_NS) as u64),
            trail_view(final(self).trail@) == noted(
                trail_view(old(self).trail@),
                entry("skipped"@, Seq::empty(), r.reason@, old(self).started, now),
            ),
            *final(self) == (Shared { cooldown_until: final(self).cooldown_until, trail: final(self).trail, ..*old(self) }),
    {
        self.cooldown_until = Some(now + COOLDOWN_NS);
        let result = ActResult { acted: false, reason: String::from_str("close confirmation failed") };
        proof {
            reveal_strlit("");
            assert(""@ =~= Seq::<char>::empty());
        }
        self.note("skipped", "", result.reason.as_str(), now);
        result
    }

    /// Banks a close or a pat: counts it, awards its XP, notes a level-up,
    /// and returns what the meters show. The single funnel for earning.
    pub fn bank_xp(&mut self, kind: Earned, now: u64) -> (v: ProgressView)
        requires
            kind == Earned::Close ==> old(self).progress.closes < u32::MAX,
            kind == Earned::Pat ==> old(self).progress.pats < u32::MAX,
            award_outcome(old(self).progress, earned_amount(kind)).0 <= u32::MAX,
        ensures
            banked(old(self).progress, trail_view(old(self).trail@), old(self).started, *final(self), kind, now, v),
            *final(self) == (Shared { progress: final(self).progress, trail: final(self).trail, ..*old(self) }),
    {
        let gained = bank(&mut self.progress, kind);
        if gained > 0 {
            let detail = level_note(self.progress.level);
            proof {
                reveal_strlit("");
                assert(""@ =~= Seq::<char>::empty());
            }
            self.note("level up", "", detail.as_str(), now);
        }
        let amount = match kind {
            Earned::Close => crate::progress::XP_CLOSE,
            Earned::Pat => XP_PAT,
        };
        ProgressView::of(&self.progress, gained, amount)
    }

    /// A pat from the overlay: it counts unless the last one was less than
    /// 4 seconds ago, in which case nothing changes and `None` comes back.
    pub fn award_pat(&mut self, now: u64) -> (r: Option<ProgressView>)
        requires
            pat_due(old(self).last_pat, now) ==> old(self).progress.pats < u32::MAX && award_outcome(
                old(self).progress,
                XP_PAT,
            ).0 <= u32::MAX,
        ensures
            !pat_due(old(self).last_pat, now) ==> r is None && *final(self) == *old(self),
            pat_due(old(self).last_pat, now) ==> {
                &&& r matches Some(v) && banked(
                    old(self).progress,
                    trail_view(old(self).trail@),
                    old(self).started,
                    *final(self),
                    Earned::Pat,
                    now,
                    v,
                )
                &&& *final(self) == (Shared {
                    progress: final(self).progress,
                    trail: final(self).trail,
                    last_pat: Some(now),
                    ..*old(self)
                })
            },
    {
        if !crate::patrol::pat_allowed(self.last_pat, now) {
            return None;
        }
        self.last_pat = Some(now);
        Some(self.bank_xp(Earned::Pat, now))
    }

    /// What the settings window shows about the watch at `now`.
    pub fn status(&self, civil: CivilTime, now: u64) -> (r: StatusInfo)
        ensures
            r.enabled == self.cfg.enabled,
            r.mode == self.cfg.mode,
            r.snoozing == (self.snooze_until matches Some(t) && now < t),
            r.snooze_seconds_left == (match self.snooze_until {
                Some(t) => sat_sub(t, now) / NANOS_PER_SECOND,
                None => 0,
            }),
            match self.last {
                Some(l) => r.foreground matches Some(f) && f@ == l@ && r.haystack@ == haystack_view(l@),
                None => r.foreground is None && r.haystack@.len() == 0,
            },
            match self.matched {
                Some(m) => r.matched matches Some(x) && x@ == m@,
                None => r.matched is None,
            },
            r.remaining_ns == self.remaining_ns,
            strings_view(r.notes@) == strings_view(self.notes@),
            trail_view(r.trail@) == trail_view(self.trail@),
            r.usage.state == status_state(self.usage@, self.cfg@, civil),
            r.usage.used_seconds == status_used(self.usage@, civil),
            r.usage.allowance_seconds == (if self.cfg@.daily_allowance.enabled {
                Some(allowance_seconds(self.cfg@))
            } else {
                None
            }),
            r.usage.remaining_seconds == (if self.cfg@.daily_allowance.enabled {
                Some(sat_sub(allowance_seconds(self.cfg@), status_used(self.usage@, civil)))
            } else {
                None
            }),
            r.usage.local_date@ == crate::usage::date_text(civil),
    {
        let (foreground, hay) = match &self.last {
            Some(l) => (Some(l.clone()), haystack(l)),
            None => (None, String::new()),
        };
        StatusInfo {
            enabled: self.cfg.enabled,
            mode: self.cfg.mode,
            snoozing: self.snoozing(now),
            snooze_seconds_left: match self.snooze_until {
                Some(t) => t.saturating_sub(now) / NANOS_PER_SECOND,
                None => 0,
            },
            foreground,
            haystack: hay,
            matched: match &self.matched {
                Some(m) => Some(m.clone()),
                None => None,
            },
            remaining_ns: self.remaining_ns,
            notes: copy_strings(&self.notes),
            trail: copy_trail(&self.trail),
            usage: self.usage.status(&self.cfg, civil),
        }
    }

    /// A pretend bust, to show what the cat does: it only ever nags.
    pub fn preview_bust(&self) -> (r: Signal)
        ensures
            r@ == (SignalView::Bust {
                rule_id: "preview"@,
                label: "YouTube Shorts"@,
                mode: EnforcementMode::Nag,
                countdown: self.cfg.countdown_seconds,
                ticket: None,
            }),
    {
        Signal::Bust {
            rule_id: String::from_str("preview"),
            label: String::from_str("YouTube Shorts"),
            mode: EnforcementMode::Nag,
            countdown: self.cfg.countdown_seconds,
            ticket: None,
        }
    }
}

/// A pat counts unless the previous one was less than 4 seconds ago.
pub open spec fn pat_due(last_pat: Option<u64>, now: u64) -> bool {
    match last_pat {
        Some(last) => sat_sub(now, last) >= PAT_COOLDOWN_NS,
        None => true,
    }
}

/// `n` holds `o` after banking `kind` at `now` onto the trail `before`,
/// and `v` is what the meters show.
pub open spec fn banked(o: Progress, before: Seq<TrailView>, started: u64, n: Shared, kind: Earned, now: u64, v: ProgressView) -> bool {
    let (level, xp, gained) = award_outcome(o, earned_amount(kind));
    &&& n.progress.closes == o.closes + (if kind == Earned::Close { 1int } else { 0 })
    &&& n.progress.pats == o.pats + (if kind == Earned::Pat { 1int } else { 0 })
    &&& n.progress.level == level
    &&& n.progress.xp == xp
    &&& n.progress.total_xp == sat_add(o.total_xp, earned_amount(kind) as u64)
    &&& v == (ProgressView {
        level: n.progress.level,
        xp: n.progress.xp,
        needed: level_cost(n.progress.level),
        total_xp: n.progress.total_xp,
        closes: n.progress.closes,
        pats: n.progress.pats,
        gained: gained as u32,
        awarded: earned_amount(kind),
    })
    &&& trail_view(n.trail@) == if gained > 0 {
        noted(before, entry("level up"@, Seq::empty(), "now level "@ + decimal(level as nat), started, now))
    } else {
        before
    }
}

/// What the settings window shows about the watch.
#[derive(Debug)]
pub struct StatusInfo {
    pub enabled: bool,
    pub mode: EnforcementMode,
    pub snoozing: bool,
    pub snooze_seconds_left: u64,
    pub foreground: Option<Snapshot>,
    pub haystack: String,
    pub matched: Option<String>,
    pub remaining_ns: u64,
    pub notes: Vec<String>,
    pub trail: Vec<TrailEntry>,
    pub usage: UsageStatus,
}

/// Law: a poll asks for a ticket only in `close` mode, while patrol is
/// neither snoozed nor cooling down, once the grace of a match has run
/// out; a poll with nothing readable in front never busts at all.
pub proof fn tickets_only_when_patrol_may_act(o: Shared, n: Shared, snap: Option<SnapshotView>, civil: CivilTime, now: u64, p: Poll)
    requires
        match snap {
            None => absent_poll(o, n, civil, now, p),
            Some(s) => present_poll(o, n, s, civil, now, p),
        },
    ensures
        snap is None ==> !(p.signal@ is Bust),
        (p.signal@ matches SignalView::Bust { ticket, .. } && ticket is Some) ==> {
            &&& o.cfg.mode == EnforcementMode::Close
            &&& !(o.snooze_until matches Some(t) && now < t)
            &&& !(o.cooldown_until matches Some(t) && now < t)
            &&& n.remaining_ns == 0
        },
{
    if let Some(s) = snap {
        let paused = (o.snooze_until matches Some(t) && now < t) || (o.cooldown_until matches Some(t) && now < t);
        let raw = matched_rule(o.cfg@, s);
        let (u, allowed) = tick_view(o.usage@, o.cfg@, civil, now, raw is Some);
        crate::patrol::no_bust_before_grace(o.watch@, o.cfg@, s, raw, paused, allowed, now);
    }
}

/// Where a close attempt stands.
#[derive(Debug, Clone, Copy, PartialEq, Eq, Structural)]
pub enum AttemptStage {
    /// the target must be checked against the window in front
    Check,
    /// the input is being delivered
    Send,
    /// the original window is being watched until it is gone
    Confirm,
    Done,
}

/// What the caller does next in a close attempt.
#[derive(Debug, Clone, Copy, PartialEq, Eq, Structural)]
pub enum AttemptStep {
    /// read the foreground window and its title, and report them to `front`
    ReadFront,
    /// deliver this input to the foreground window and report to `delivered`
    Send(Dispatch),
    /// read the original window afresh and report it to `observed`
    Look,
    /// sleep this many milliseconds, then look again
    Wait(u64),
    /// the attempt is over: settle it with `Shared::finish_act`
    Finish,
}

/// One attempt to close an authorized target: the check that it is still
/// in front, the delivery of the input, and the watch that confirms the
/// target went away. Only `Shared::begin_act` makes one, from a ticket it
/// authorized.
#[derive(Debug)]
pub struct CloseAttempt {
    authorized: AuthorizedAction,
    stage: AttemptStage,
    deadline: u64,
    delivered: bool,
    confirmed: bool,
    result: Option<ActResult>,
}

pub struct AttemptView {
    pub authorized: AuthorizedView,
    pub stage: AttemptStage,
    /// when confirmation gives up
    pub deadline: u64,
    /// the system accepted the input
    pub delivered: bool,
    /// a look at the original window found it gone
    pub confirmed: bool,
    /// whether the attempt acted, and why, once it is over
    pub result: Option<(bool, Seq<char>)>,
}

impl View for CloseAttempt {
    type V = AttemptView;

    closed spec fn view(&self) -> AttemptView {
        AttemptView {
            authorized: self.authorized@,
            stage: self.stage,
            deadline: self.deadline,
            delivered: self.delivered,
            confirmed: self.confirmed,
            result: match self.result {
                Some(r) => Some((r.acted, r.reason@)),
                None => None,
            },
        }
    }
}

/// A fresh attempt on an authorized action.
pub open spec fn attempt_start(a: AuthorizedView) -> AttemptView {
    AttemptView { authorized: a, stage: AttemptStage::Check, deadline: 0, delivered: false, confirmed: false, result: None }
}

/// The attempt is over and acted.
pub open spec fn attempt_acted(a: AttemptView) -> bool {
    a.result matches Some(r) && r.0
}

/// What an attempt's record keeps true: it has an outcome exactly when it
/// is over, confirmation follows delivery, and it acted only when it was
/// delivered and confirmed.
pub open spec fn attempt_wf(a: AttemptView) -> bool {
    &&& (a.stage == AttemptStage::Done) == (a.result is Some)
    &&& a.confirmed ==> a.delivered
    &&& attempt_acted(a) ==> a.delivered && a.confirmed
    &&& (a.stage == AttemptStage::Check || a.stage == AttemptStage::Send) ==> !a.delivered
    &&& a.stage == AttemptStage::Confirm ==> a.delivered && !a.confirmed
}

impl CloseAttempt {
    /// The window the attempt is about.
    pub fn target(&self) -> (r: &Snapshot)
        ensures
            r@ == self@.authorized.target,
    {
        &self.authorized.target
    }

    /// The attempt is over and acted.
    pub fn acted(&self) -> (r: bool)
        ensures
            r == attempt_acted(self@),
    {
        match &self.result {
            Some(result) => result.acted,
            None => false,
        }
    }

    /// The stage the attempt is in.
    pub fn stage(&self) -> (r: AttemptStage)
        ensures
            r == self@.stage,
    {
        self.stage
    }

    /// The window in front (`None` when there is none) and its title: the
    /// target must still be there, or the attempt ends without acting.
    pub fn front(&mut self, foreground: Option<isize>, title: &str) -> (step: AttemptStep)
        requires
            old(self)@.stage == AttemptStage::Check,
            attempt_wf(old(self)@),
        ensures
            attempt_wf(final(self)@),
            final(self)@.authorized == old(self)@.authorized,
            match close_verdict(old(self)@.authorized.target, foreground, title@, old(self)@.authorized.action) {
                Ok(d) => step == AttemptStep::Send(d) && final(self)@ == (AttemptView {
                    stage: AttemptStage::Send,
                    ..old(self)@
                }),
                Err(reason) => step == AttemptStep::Finish && final(self)@ == (AttemptView {
                    stage: AttemptStage::Done,
                    result: Some((false, reason)),
                    ..old(self)@
                }),
            },
    {
        match close_check(&self.authorized.target, foreground, title, self.authorized.action) {
            Ok(d) => {
                self.stage = AttemptStage::Send;
                AttemptStep::Send(d)
            },
            Err(refused) => {
                self.stage = AttemptStage::Done;
                self.result = Some(refused);
                AttemptStep::Finish
            },
        }
    }

    /// Whether the system accepted the input, reported at `now`. Accepted
    /// input starts a 2-second watch of the original window; refused
    /// input ends the attempt without acting.
    pub fn delivered(&mut self, ok: bool, now: u64) -> (step: AttemptStep)
        requires
            old(self)@.stage == AttemptStage::Send,
            attempt_wf(old(self)@),
            ok ==> now + CONFIRM_WINDOW_NS <= u64::MAX,
        ensures
            attempt_wf(final(self)@),
            ok ==> step == AttemptStep::Look && final(self)@ == (AttemptView {
                stage: AttemptStage::Confirm,
                delivered: true,
                deadline: (now + CONFIRM_WINDOW_NS) as u64,
                ..old(self)@
            }),
            !ok ==> step == AttemptStep::Finish && final(self)@ == (AttemptView {
                stage: AttemptStage::Done,
                result: Some((false, blocked_reason(old(self)@.authorized.action))),
                ..old(self)@
            }),
    {
        if ok {
            self.delivered = true;
            self.deadline = now + CONFIRM_WINDOW_NS;
            self.stage = AttemptStage::Confirm;
            AttemptStep::Look
        } else {
            self.result = Some(dispatch_result(self.authorized.action, false));
            self.stage = AttemptStage::Done;
            AttemptStep::Finish
        }
    }

    /// One look at the original window at `now` (`None` when it is gone).
    /// The attempt is confirmed as soon as a look finds the target gone,
    /// and gives up unconfirmed at the deadline; an undecidable look never
    /// confirms.
    pub fn observed(&mut self, observed: Option<&Snapshot>, now: u64) -> (step: AttemptStep)
        requires
            old(self)@.stage == AttemptStage::Confirm,
            attempt_wf(old(self)@),
        ensures
            attempt_wf(final(self)@),
            ({
                let a = old(self)@.authorized;
                let verdict = confirmation_view(
                    a.action,
                    a.target,
                    a.rule,
                    a.url_required,
                    match observed {
                        Some(o) => Some(o@),
                        None => None,
                    },
                );
                if verdict == Some(true) {
                    step == AttemptStep::Finish && final(self)@ == (AttemptView {
                        stage: AttemptStage::Done,
                        confirmed: true,
                        result: Some((true, action_text(a.action))),
                        ..old(self)@
                    })
                } else if now >= old(self)@.deadline {
                    step == AttemptStep::Finish && final(self)@ == (AttemptView {
                        stage: AttemptStage::Done,
                        result: Some((false, "the target did not close"@)),
                        ..old(self)@
                    })
                } else {
                    step == AttemptStep::Wait(CONFIRM_INTERVAL_MS) && final(self)@ == old(self)@
                }
            }),
    {
        let verdict = confirmation_result(
            self.authorized.action,
            &self.authorized.target,
            &self.authorized.rule,
            self.authorized.url_required,
            observed,
        );
        match confirm_step(verdict, now, self.deadline) {
            ConfirmStep::Confirmed => {
                self.confirmed = true;
                self.result = Some(confirmation_outcome(true, self.authorized.action));
                self.stage = AttemptStage::Done;
                AttemptStep::Finish
            },
            ConfirmStep::GiveUp => {
                self.result = Some(confirmation_outcome(false, self.authorized.action));
                self.stage = AttemptStage::Done;
                AttemptStep::Finish
            },
            ConfirmStep::Wait => AttemptStep::Wait(CONFIRM_INTERVAL_MS),
        }
    }
}

/// Law: a close attempt that is over acted only if the system accepted
/// its input and a later look found the target gone; so a close is
/// counted and XP banked (`Shared::finish_act`) only for an authorized,
/// delivered and confirmed close.
pub proof fn acting_needs_delivery_and_confirmation(a: AttemptView)
    requires
        attempt_wf(a),
        attempt_acted(a),
    ensures
        a.stage == AttemptStage::Done,
        a.delivered,
        a.confirmed,
{
}

} // verus!
