//! Single-use, expiring capabilities for destructive actions.
//!
//! When a matched rule reaches its grace limit a ticket is issued that
//! remembers the target, the rule and the resolved action. The overlay
//! only ever hands the ticket's ID back; the action is authorized against
//! a fresh snapshot and the current settings, and a ticket is consumed by
//! its first authorization attempt whatever the outcome.
//!
//! Instants are nanoseconds on the caller's monotonic clock.

use std::collections::VecDeque;
use vstd::prelude::*;
use crate::config::{Config, ConfigView, EnforcementMode, Rule, RuleAction, RuleView, strings_view};
use crate::rules::{match_index, requires_url, requires_url_view};
use crate::text::{chars_of, trim, trim_vec};
use crate::win::{eq_ignore_ascii_case, eq_ignore_case, Snapshot, SnapshotView};

verus! {

pub const MAX_TICKETS: usize = 32;

/// How long a ticket outlives its countdown: 15 seconds.
pub const EXPIRY_GRACE_NS: u64 = 15_000_000_000;

/// What a consumed ticket allows the caller to do.
#[derive(Debug)]
pub struct AuthorizedAction {
    pub target: Snapshot,
    pub action: RuleAction,
    pub rule: Rule,
    pub url_required: bool,
}

pub struct AuthorizedView {
    pub target: SnapshotView,
    pub action: RuleAction,
    pub rule: RuleView,
    pub url_required: bool,
}

impl View for AuthorizedAction {
    type V = AuthorizedView;

    open spec fn view(&self) -> AuthorizedView {
        AuthorizedView {
            target: self.target@,
            action: self.action,
            rule: self.rule@,
            url_required: self.url_required,
        }
    }
}

#[derive(Debug)]
struct PendingAction {
    id: String,
    target: Snapshot,
    rule: Rule,
    action: RuleAction,
    url_required: bool,
    issued_at: u64,
    expires_at: u64,
}

/// An issued, not yet consumed ticket.
pub struct PendingView {
    pub id: Seq<char>,
    pub target: SnapshotView,
    pub rule: RuleView,
    pub action: RuleAction,
    pub url_required: bool,
    pub issued_at: u64,
    pub expires_at: u64,
}

impl View for PendingAction {
    type V = PendingView;

    closed spec fn view(&self) -> PendingView {
        PendingView {
            id: self.id@,
            target: self.target@,
            rule: self.rule@,
            action: self.action,
            url_required: self.url_required,
            issued_at: self.issued_at,
            expires_at: self.expires_at,
        }
    }
}

/// The tickets in issue order.
#[derive(Debug)]
pub struct ActionTickets {
    entries: VecDeque<PendingAction>,
}

impl View for ActionTickets {
    type V = Seq<PendingView>;

    closed spec fn view(&self) -> Seq<PendingView> {
        self.entries@.map_values(|e: PendingAction| e@)
    }
}

/// The tickets that have not expired at `now`, in order.
pub open spec fn live(s: Seq<PendingView>, now: u64) -> Seq<PendingView>
    decreases s.len(),
{
    if s.len() == 0 {
        s
    } else {
        let p = live(s.drop_last(), now);
        if s.last().expires_at > now {
            p.push(s.last())
        } else {
            p
        }
    }
}

/// The newest 31 tickets when the store is full, so one more fits.
pub open spec fn make_room(s: Seq<PendingView>) -> Seq<PendingView> {
    if s.len() >= MAX_TICKETS {
        s.subrange(s.len() - (MAX_TICKETS - 1), s.len() as int)
    } else {
        s
    }
}

/// The position of the first ticket with `id`, looking from `i` on.
pub open spec fn find_from(s: Seq<PendingView>, id: Seq<char>, i: int) -> Option<int>
    decreases s.len() - i,
{
    if i < 0 || i >= s.len() {
        None
    } else if s[i].id == id {
        Some(i)
    } else {
        find_from(s, id, i + 1)
    }
}

pub open spec fn find(s: Seq<PendingView>, id: Seq<char>) -> Option<int> {
    find_from(s, id, 0)
}

/// The ticket issued for `target` at `now` under `id`.
pub open spec fn ticket_for(
    id: Seq<char>,
    target: SnapshotView,
    rule: RuleView,
    action: RuleAction,
    countdown_ns: u64,
    now: u64,
) -> PendingView {
    PendingView {
        id,
        target,
        rule,
        action,
        url_required: requires_url_view(rule, target),
        issued_at: now,
        expires_at: (now + countdown_ns + EXPIRY_GRACE_NS) as u64,
    }
}

/// What consuming ticket `t` yields for a fresh snapshot and the current
/// settings: the checks run in this order and the first failure is the
/// reason given.
pub open spec fn authorization(t: PendingView, fresh: SnapshotView, cfg: ConfigView, now: u64) -> Result<
    AuthorizedView,
    Seq<char>,
> {
    if now < t.issued_at {
        Err("invalid action time"@)
    } else if cfg.mode != EnforcementMode::Close || !cfg.enabled {
        Err("patrol is not allowed to act"@)
    } else if fresh.hwnd != t.target.hwnd || fresh.pid != t.target.pid || !eq_ignore_case(
        fresh.proc,
        t.target.proc,
    ) {
        Err("window is no longer in front"@)
    } else if t.url_required && trim(fresh.url).len() == 0 {
        Err("address bar could not be verified"@)
    } else {
        match match_index(cfg, fresh) {
            None => Err("target no longer matches"@),
            Some(i) => if cfg.rules[i] != t.rule {
                Err("rule changed during countdown"@)
            } else {
                Ok(
                    AuthorizedView {
                        target: fresh,
                        action: t.action,
                        rule: t.rule,
                        url_required: t.url_required,
                    },
                )
            },
        }
    }
}

/// The tickets whose ID is not `id`, in order.
pub open spec fn without_id(s: Seq<PendingView>, id: Seq<char>) -> Seq<PendingView>
    decreases s.len(),
{
    if s.len() == 0 {
        s
    } else {
        let p = without_id(s.drop_last(), id);
        if s.last().id != id {
            p.push(s.last())
        } else {
            p
        }
    }
}

/// The store and the outcome after consuming ticket `id`: expired
/// tickets go first, then every ticket with that ID, so nothing with it
/// is left to replay whatever the outcome. The outcome is judged on the
/// first live ticket with the ID.
pub open spec fn authorize_view(s: Seq<PendingView>, id: Seq<char>, fresh: SnapshotView, cfg: ConfigView, now: u64) -> (
    Seq<PendingView>,
    Result<AuthorizedView, Seq<char>>,
) {
    let pruned = live(s, now);
    (
        without_id(pruned, id),
        match find(pruned, id) {
            None => Err("unknown or expired action"@),
            Some(i) => authorization(pruned[i], fresh, cfg, now),
        },
    )
}

pub proof fn lemma_live_members(s: Seq<PendingView>, now: u64)
    ensures
        live(s, now).len() <= s.len(),
        forall|k: int| 0 <= k < live(s, now).len() ==> #[trigger] live(s, now)[k].expires_at > now,
        forall|k: int| 0 <= k < live(s, now).len() ==> s.contains(#[trigger] live(s, now)[k]),
    decreases s.len(),
{
    if s.len() > 0 {
        lemma_live_members(s.drop_last(), now);
        let p = live(s.drop_last(), now);
        assert forall|k: int| 0 <= k < live(s, now).len() implies s.contains(#[trigger] live(s, now)[k]) by {
            if k < p.len() {
                assert(s.drop_last().contains(p[k]));
                let j = choose|j: int| 0 <= j < s.drop_last().len() && s.drop_last()[j] == p[k];
                assert(s[j] == p[k]);
            } else {
                assert(s[s.len() - 1] == s.last());
            }
        }
    }
}

proof fn lemma_find_from(s: Seq<PendingView>, id: Seq<char>, i: int)
    requires
        0 <= i <= s.len(),
    ensures
        match find_from(s, id, i) {
            Some(k) => i <= k < s.len() && s[k].id == id && forall|j: int| i <= j < k ==> s[j].id != id,
            None => forall|j: int| i <= j < s.len() ==> s[j].id != id,
        },
    decreases s.len() - i,
{
    if i < s.len() {
        lemma_find_from(s, id, i + 1);
    }
}

proof fn lemma_live_step(s: Seq<PendingView>, i: int, now: u64)
    requires
        0 <= i < s.len(),
    ensures
        live(s.take(i + 1), now) == if s[i].expires_at > now {
            live(s.take(i), now).push(s[i])
        } else {
            live(s.take(i), now)
        },
{
    assert(s.take(i + 1).drop_last() =~= s.take(i));
}

pub proof fn lemma_without_members(s: Seq<PendingView>, id: Seq<char>)
    ensures
        without_id(s, id).len() <= s.len(),
        forall|k: int| 0 <= k < without_id(s, id).len() ==> (#[trigger] without_id(s, id)[k]).id != id,
        forall|k: int| 0 <= k < without_id(s, id).len() ==> s.contains(#[trigger] without_id(s, id)[k]),
    decreases s.len(),
{
    if s.len() > 0 {
        lemma_without_members(s.drop_last(), id);
        let p = without_id(s.drop_last(), id);
        assert forall|k: int| 0 <= k < without_id(s, id).len() implies s.contains(#[trigger] without_id(s, id)[k]) by {
            if k < p.len() {
                assert(s.drop_last().contains(p[k]));
                let j = choose|j: int| 0 <= j < s.drop_last().len() && s.drop_last()[j] == p[k];
                assert(s[j] == p[k]);
            } else {
                assert(s[s.len() - 1] == s.last());
            }
        }
    }
}

proof fn lemma_without_step(s: Seq<PendingView>, i: int, id: Seq<char>)
    requires
        0 <= i < s.len(),
    ensures
        without_id(s.take(i + 1), id) == if s[i].id != id {
            without_id(s.take(i), id).push(s[i])
        } else {
            without_id(s.take(i), id)
        },
{
    assert(s.take(i + 1).drop_last() =~= s.take(i));
}

impl Default for ActionTickets {
    fn default() -> (r: Self)
        ensures
            r@ == Seq::<PendingView>::empty(),
    {
        let r = ActionTickets { entries: VecDeque::new() };
        assert(r@ =~= Seq::<PendingView>::empty());
        r
    }
}

/// Whether two rules are the same in every field.
pub fn same_rule(a: &Rule, b: &Rule) -> (r: bool)
    ensures
        r == (a@ == b@),
{
    if a.id != b.id || a.label != b.label || a.grace != b.grace || a.action != b.action || a.enabled
        != b.enabled {
        return false;
    }
    if !same_strings(&a.all, &b.all) {
        return false;
    }
    if !same_strings(&a.any, &b.any) {
        return false;
    }
    assert(a@ =~~= b@);
    true
}

/// Whether two lists hold the same strings.
pub fn same_strings(a: &Vec<String>, b: &Vec<String>) -> (r: bool)
    ensures
        r == (strings_view(a@) == strings_view(b@)),
{
    if a.len() != b.len() {
        assert(strings_view(a@).len() != strings_view(b@).len());
        return false;
    }
    let mut i: usize = 0;
    while i < a.len()
        invariant
            i <= a.len() == b.len(),
            forall|k: int| 0 <= k < i ==> a@[k]@ == b@[k]@,
        decreases a.len() - i,
    {
        if a[i] != b[i] {
            assert(strings_view(a@)[i as int] != strings_view(b@)[i as int]);
            return false;
        }
        i = i + 1;
    }
    assert(strings_view(a@) =~= strings_view(b@));
    true
}

fn copy_pending(e: &PendingAction) -> (r: PendingAction)
    ensures
        r@ == e@,
{
    PendingAction {
        id: e.id.clone(),
        target: e.target.clone(),
        rule: e.rule.clone(),
        action: e.action,
        url_required: e.url_required,
        issued_at: e.issued_at,
        expires_at: e.expires_at,
    }
}

impl ActionTickets {
    /// Drops every ticket that has expired at `now`.
    fn prune(&mut self, now: u64)
        ensures
            final(self)@ == live(old(self)@, now),
    {
        let ghost orig = self@;
        let mut kept: VecDeque<PendingAction> = VecDeque::new();
        let mut i: usize = 0;
        let n = self.entries.len();
        assert(self.entries@.map_values(|e: PendingAction| e@) == orig);
        while i < n
            invariant
                i <= n == orig.len(),
                self.entries@.len() == n - i,
                forall|k: int| 0 <= k < n - i ==> (#[trigger] self.entries@[k])@ == orig[i + k],
                kept@.map_values(|e: PendingAction| e@) == live(orig.take(i as int), now),
            decreases n - i,
        {
            let ghost rest = self.entries@;
            match self.entries.pop_front() {
                Some(e) => {
                    proof {
                        lemma_live_step(orig, i as int, now);
                    }
                    assert(e@ == orig[i as int]);
                    if e.expires_at > now {
                        kept.push_back(e);
                    }
                    i = i + 1;
                    assert forall|k: int| 0 <= k < n - i implies (#[trigger] self.entries@[k])@ == orig[i + k] by {
                        assert(self.entries@[k] == rest[k + 1]);
                    }
                    assert(kept@.map_values(|e: PendingAction| e@) =~= live(orig.take(i as int), now));
                },
                None => {
                    i = n;
                },
            }
        }
        assert(orig.take(i as int) =~= orig);
        self.entries = kept;
    }

    /// Drops every ticket with `id`.
    fn drop_id(&mut self, id: &String)
        ensures
            final(self)@ == without_id(old(self)@, id@),
    {
        let ghost orig = self@;
        let mut kept: VecDeque<PendingAction> = VecDeque::new();
        let mut i: usize = 0;
        let n = self.entries.len();
        assert(self.entries@.map_values(|e: PendingAction| e@) == orig);
        while i < n
            invariant
                i <= n == orig.len(),
                self.entries@.len() == n - i,
                forall|k: int| 0 <= k < n - i ==> (#[trigger] self.entries@[k])@ == orig[i + k],
                kept@.map_values(|e: PendingAction| e@) == without_id(orig.take(i as int), id@),
            decreases n - i,
        {
            let ghost rest = self.entries@;
            match self.entries.pop_front() {
                Some(e) => {
                    proof {
                        lemma_without_step(orig, i as int, id@);
                    }
                    assert(e@ == orig[i as int]);
                    if e.id != *id {
                        kept.push_back(e);
                    }
                    i = i + 1;
                    assert forall|k: int| 0 <= k < n - i implies (#[trigger] self.entries@[k])@ == orig[i + k] by {
                        assert(self.entries@[k] == rest[k + 1]);
                    }
                    assert(kept@.map_values(|e: PendingAction| e@) =~= without_id(orig.take(i as int), id@));
                },
                None => {
                    i = n;
                },
            }
        }
        assert(orig.take(i as int) =~= orig);
        self.entries = kept;
    }

    /// Issues a ticket for a matched target whose grace ran out. `fresh_id`
    /// is a newly generated unguessable ID, or `None` when none could be
    /// made, in which case no ticket is issued. Expired tickets are dropped
    /// and the oldest ones evicted so that at most 32 remain.
    pub fn issue(
        &mut self,
        target: &Snapshot,
        rule: &Rule,
        action: RuleAction,
        countdown_ns: u64,
        now: u64,
        fresh_id: Option<String>,
    ) -> (r: Option<String>)
        requires
            now + countdown_ns + EXPIRY_GRACE_NS <= u64::MAX,
        ensures
            final(self)@.len() <= MAX_TICKETS,
            match fresh_id {
                None => r is None && final(self)@ == make_room(live(old(self)@, now)),
                Some(id) => r == Some(id) && final(self)@ == make_room(live(old(self)@, now)).push(
                    ticket_for(id@, target@, rule@, action, countdown_ns, now),
                ),
            },
    {
        self.prune(now);
        let ghost pruned = self@;
        while self.entries.len() >= MAX_TICKETS
            invariant
                self@.len() <= pruned.len(),
                self@.len() == self.entries@.len(),
                pruned.len() >= MAX_TICKETS ==> self@.len() >= MAX_TICKETS - 1,
                pruned.len() < MAX_TICKETS ==> self@ == pruned,
                self@ == pruned.subrange(pruned.len() - self@.len(), pruned.len() as int),
            decreases self.entries.len(),
        {
            let ghost before = self@;
            let _ = self.entries.pop_front();
            assert(self@ =~= before.subrange(1, before.len() as int));
        }
        assert(self@ =~= make_room(pruned)) by {
            if pruned.len() >= MAX_TICKETS {
                assert(self@.len() == MAX_TICKETS - 1);
            }
        }
        let id = match fresh_id {
            Some(id) => id,
            None => return None,
        };
        let ghost kept = self@;
        let url_required = requires_url(rule, target);
        let entry = PendingAction {
            id: id.clone(),
            target: target.clone(),
            rule: rule.clone(),
            action,
            url_required,
            issued_at: now,
            expires_at: now + countdown_ns + EXPIRY_GRACE_NS,
        };
        self.entries.push_back(entry);
        assert(self@ =~= kept.push(ticket_for(id@, target@, rule@, action, countdown_ns, now)));
        Some(id)
    }

    /// Consumes the ticket `id` and authorizes its stored action when the
    /// fresh snapshot is still the same window, process and (where the
    /// rule needed it) URL, patrol may act, and the same rule still
    /// matches. Every ticket with this ID is gone afterwards, whatever the
    /// outcome.
    pub fn authorize(&mut self, id: &str, fresh: &Snapshot, cfg: &Config, now: u64) -> (r: Result<
        AuthorizedAction,
        &'static str,
    >)
        ensures
            ({
                let pruned = live(old(self)@, now);
                &&& final(self)@ == without_id(pruned, id@)
                &&& match find(pruned, id@) {
                    None => r matches Err(e) && e@ == "unknown or expired action"@,
                    Some(i) => match r {
                        Ok(a) => authorization(pruned[i], fresh@, cfg@, now) == Ok::<AuthorizedView, Seq<char>>(a@),
                        Err(e) => authorization(pruned[i], fresh@, cfg@, now) == Err::<AuthorizedView, Seq<char>>(e@),
                    },
                }
            }),
            find(final(self)@, id@) is None,
            final(self)@ == authorize_view(old(self)@, id@, fresh@, cfg@, now).0,
            match r {
                Ok(a) => authorize_view(old(self)@, id@, fresh@, cfg@, now).1 == Ok::<AuthorizedView, Seq<char>>(a@),
                Err(e) => authorize_view(old(self)@, id@, fresh@, cfg@, now).1 == Err::<AuthorizedView, Seq<char>>(e@),
            },
    {
        self.prune(now);
        let ghost pruned = self@;
        proof {
            lemma_find_from(pruned, id@, 0);
        }
        let key = String::from_str(id);
        let mut index: usize = 0;
        while index < self.entries.len() && self.entries[index].id != key
            invariant
                index <= self.entries@.len(),
                self@ == pruned,
                key@ == id@,
                forall|j: int| 0 <= j < index ==> pruned[j].id != id@,
            decreases self.entries@.len() - index,
        {
            assert(self.entries@[index as int]@ == pruned[index as int]);
            index = index + 1;
        }
        if index == self.entries.len() {
            proof {
                lemma_find_from(pruned, id@, 0);
            }
            assert(find(pruned, id@) is None);
            self.drop_id(&key);
            proof {
                lemma_without_members(pruned, id@);
                lemma_find_from(self@, id@, 0);
            }
            return Err("unknown or expired action");
        }
        assert(self.entries@[index as int]@ == pruned[index as int]);
        assert(find(pruned, id@) == Some(index as int));
        // Consumption happens before validation. A failed attempt must
        // not leave a destructive capability available for replay.
        let ticket = copy_pending(&self.entries[index]);
        self.drop_id(&key);
        proof {
            lemma_without_members(pruned, id@);
            lemma_find_from(self@, id@, 0);
        }
        assert(ticket@ == pruned[index as int]);
        if now < ticket.issued_at {
            return Err("invalid action time");
        }
        if cfg.mode != EnforcementMode::Close || !cfg.enabled {
            return Err("patrol is not allowed to act");
        }
        if fresh.hwnd != ticket.target.hwnd || fresh.pid != ticket.target.pid
            || !eq_ignore_ascii_case(fresh.proc.as_str(), ticket.target.proc.as_str()) {
            return Err("window is no longer in front");
        }
        if ticket.url_required && trim_vec(&chars_of(fresh.url.as_str())).len() == 0 {
            return Err("address bar could not be verified");
        }
        let rule = match crate::rules::matches(cfg, fresh) {
            Some(rule) => rule,
            None => return Err("target no longer matches"),
        };
        if !same_rule(rule, &ticket.rule) {
            return Err("rule changed during countdown");
        }
        Ok(
            AuthorizedAction {
                target: fresh.clone(),
                action: ticket.action,
                rule: ticket.rule,
                url_required: ticket.url_required,
            },
        )
    }

    /// The number of stored tickets.
    pub fn len(&self) -> (r: usize)
        ensures
            r == self@.len(),
    {
        self.entries.len()
    }

    /// Forgets every ticket.
    pub fn clear(&mut self)
        ensures
            final(self)@ == Seq::<PendingView>::empty(),
    {
        self.entries.clear();
        assert(self@ =~= Seq::<PendingView>::empty());
    }
}

/// Law: a store never holds more than 32 tickets after an issue, and
/// every stored ticket is one that has not yet expired at the issue time
/// or the newly issued one.
pub proof fn issued_store_is_bounded(s: Seq<PendingView>, now: u64)
    ensures
        make_room(live(s, now)).len() <= MAX_TICKETS - 1,
        forall|k: int| 0 <= k < make_room(live(s, now)).len() ==> #[trigger] make_room(live(s, now))[k].expires_at > now,
{
    lemma_live_members(s, now);
    let l = live(s, now);
    if l.len() >= MAX_TICKETS {
        assert forall|k: int| 0 <= k < make_room(l).len() implies #[trigger] make_room(l)[k].expires_at > now by {
            assert(make_room(l)[k] == l[k + l.len() - (MAX_TICKETS - 1)]);
        }
    }
}

/// Law: a ticket whose expiry has passed can never be consumed; looking
/// it up at `now` finds nothing.
pub proof fn expired_ticket_is_unknown(s: Seq<PendingView>, id: Seq<char>, now: u64)
    requires
        forall|k: int| 0 <= k < s.len() && s[k].id == id ==> s[k].expires_at <= now,
    ensures
        find(live(s, now), id) is None,
{
    lemma_live_members(s, now);
    let l = live(s, now);
    assert forall|j: int| 0 <= j < l.len() implies l[j].id != id by {
        assert(s.contains(l[j]));
        let m = choose|m: int| 0 <= m < s.len() && s[m] == l[j];
    }
    lemma_find_from(l, id, 0);
}

/// Law: a ticket is single-use: after one authorization attempt at
/// `now`, whatever its outcome, a later attempt finds no ticket with that
/// ID.
pub proof fn consumed_ticket_is_unknown(
    s: Seq<PendingView>,
    id: Seq<char>,
    fresh: SnapshotView,
    cfg: ConfigView,
    now: u64,
    later: u64,
)
    ensures
        find(live(authorize_view(s, id, fresh, cfg, now).0, later), id) is None,
{
    let after = authorize_view(s, id, fresh, cfg, now).0;
    lemma_without_members(live(s, now), id);
    lemma_live_members(after, later);
    let l = live(after, later);
    assert forall|j: int| 0 <= j < l.len() implies l[j].id != id by {
        assert(after.contains(l[j]));
    }
    lemma_find_from(l, id, 0);
}

/// Law: a ticket just issued for `target` authorizes exactly its stored
/// action when it comes back before it expires, the same window is still
/// in front (with a readable address where the rule needed the URL),
/// patrol may act, and the rule that matches is still the same one.
pub proof fn fresh_ticket_authorizes_its_action(
    s: Seq<PendingView>,
    id: Seq<char>,
    target: SnapshotView,
    rule: RuleView,
    action: RuleAction,
    countdown_ns: u64,
    now: u64,
    cfg: ConfigView,
    later: u64,
)
    requires
        forall|k: int| 0 <= k < s.len() ==> (#[trigger] s[k]).id != id,
        now + countdown_ns + EXPIRY_GRACE_NS <= u64::MAX,
        now <= later < now + countdown_ns + EXPIRY_GRACE_NS,
        cfg.mode == EnforcementMode::Close,
        cfg.enabled,
        match_index(cfg, target) matches Some(i) && cfg.rules[i] == rule,
        requires_url_view(rule, target) ==> trim(target.url).len() > 0,
    ensures
        ({
            let store = make_room(live(s, now)).push(ticket_for(id, target, rule, action, countdown_ns, now));
            authorize_view(store, id, target, cfg, later).1 == Ok::<AuthorizedView, Seq<char>>(
                AuthorizedView { target, action, rule, url_required: requires_url_view(rule, target) },
            )
        }),
{
    let t = ticket_for(id, target, rule, action, countdown_ns, now);
    let l0 = live(s, now);
    let q = make_room(l0);
    let store = q.push(t);
    lemma_live_members(s, now);
    assert forall|k: int| 0 <= k < q.len() implies (#[trigger] q[k]).id != id by {
        let j = if l0.len() >= MAX_TICKETS {
            k + l0.len() - (MAX_TICKETS - 1)
        } else {
            k
        };
        assert(q[k] == l0[j]);
        assert(s.contains(l0[j]));
    }
    assert(store.drop_last() =~= q);
    assert(live(store, later) == live(q, later).push(t));
    lemma_live_members(q, later);
    let l = live(q, later);
    assert forall|k: int| 0 <= k < l.len() implies (#[trigger] l[k]).id != id by {
        assert(q.contains(l[k]));
    }
    let lp = l.push(t);
    lemma_find_from(lp, id, 0);
    assert(lp[l.len() as int] == t);
    assert(find(lp, id) == Some(l.len() as int));
    assert(eq_ignore_case(target.proc, target.proc));
}

} // verus!
