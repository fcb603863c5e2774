//! Deciding whether what is in front of you counts as doomscrolling.

use vstd::prelude::*;
use crate::config::{rules_view, strings_view, Config, ConfigView, Rule, RuleAction, RuleView};
use crate::text::{
    chars_of, contains, contains_exec, lemma_lower_idempotent, lemma_trim_lower, lower, lower_vec,
    string_of, trim, trim_vec,
};
use crate::win::{is_browser, is_browser_view, Snapshot, SnapshotView};

verus! {

/// URL first — it is the only place "reels" or "shorts" ever appears.
/// Title second — it is all that is left when a browser goes fullscreen
/// for video and drops its address bar out of the UI tree.
pub open spec fn haystack_view(s: SnapshotView) -> Seq<char> {
    lower(s.url) + " | "@ + lower(s.title) + " | "@ + lower(s.proc)
}

/// How a pattern is compared: trimmed and ASCII-lowercased.
pub open spec fn pattern_key(p: Seq<char>) -> Seq<char> {
    lower(trim(p))
}

pub open spec fn hits(hay: Seq<char>, p: Seq<char>) -> bool {
    contains(hay, pattern_key(p))
}

/// An enabled rule with at least one pattern, all of whose `all`
/// patterns and (when there are any) one of whose `any` patterns occur.
pub open spec fn rule_matches_view(r: RuleView, s: SnapshotView) -> bool {
    let hay = haystack_view(s);
    &&& r.enabled
    &&& !(r.all.len() == 0 && r.any.len() == 0)
    &&& forall|k: int| 0 <= k < r.all.len() ==> hits(hay, #[trigger] r.all[k])
    &&& (r.any.len() == 0 || exists|k: int| 0 <= k < r.any.len() && hits(hay, #[trigger] r.any[k]))
}

/// A non-blank entry of the never list occurs.
pub open spec fn never_hit(never: Seq<Seq<char>>, hay: Seq<char>) -> bool {
    exists|k: int| 0 <= k < never.len() && pattern_key(#[trigger] never[k]).len() > 0 && hits(hay, never[k])
}

/// The index of the first rule, from `i` on, that matches.
pub open spec fn first_match_from(rules: Seq<RuleView>, s: SnapshotView, i: int) -> Option<int>
    decreases rules.len() - i,
{
    if i < 0 || i >= rules.len() {
        None
    } else if rule_matches_view(rules[i], s) {
        Some(i)
    } else {
        first_match_from(rules, s, i + 1)
    }
}

/// The rule that applies to a snapshot: none while patrol is off, for a
/// window with neither title nor URL, or when the never list hits;
/// otherwise the first matching rule.
pub open spec fn match_index(c: ConfigView, s: SnapshotView) -> Option<int> {
    if !c.enabled || (s.title.len() == 0 && s.url.len() == 0) || never_hit(c.never, haystack_view(s)) {
        None
    } else {
        first_match_from(c.rules, s, 0)
    }
}

/// The haystack as characters.
fn haystack_chars(snap: &Snapshot) -> (r: Vec<char>)
    ensures
        r@ == haystack_view(snap@),
{
    let mut r: Vec<char> = Vec::new();
    let url = lower_vec(&chars_of(snap.url.as_str()));
    let title = lower_vec(&chars_of(snap.title.as_str()));
    let proc = lower_vec(&chars_of(snap.proc.as_str()));
    let sep = chars_of(" | ");
    r.append(&mut url.clone());
    r.append(&mut sep.clone());
    r.append(&mut title.clone());
    r.append(&mut sep.clone());
    r.append(&mut proc.clone());
    assert(r@ =~= haystack_view(snap@));
    r
}

/// The text the rules are matched against.
pub fn haystack(snap: &Snapshot) -> (r: String)
    ensures
        r@ == haystack_view(snap@),
{
    string_of(&haystack_chars(snap))
}

/// The comparable form of a pattern.
fn key_of(p: &String) -> (r: Vec<char>)
    ensures
        r@ == pattern_key(p@),
{
    lower_vec(&trim_vec(&chars_of(p.as_str())))
}

fn hits_exec(hay: &Vec<char>, p: &String) -> (r: bool)
    ensures
        r == hits(hay@, p@),
{
    contains_exec(hay, &key_of(p))
}

fn rule_matches_hay(rule: &Rule, hay: &Vec<char>, Ghost(s): Ghost<SnapshotView>) -> (r: bool)
    requires
        hay@ == haystack_view(s),
    ensures
        r == rule_matches_view(rule@, s),
{
    let ghost rv = rule@;
    if !rule.enabled {
        return false;
    }
    let mut all_hit = true;
    let mut k: usize = 0;
    while k < rule.all.len()
        invariant
            k <= rule.all.len(),
            rv == rule@,
            all_hit == (forall|j: int| 0 <= j < k ==> hits(hay@, #[trigger] rv.all[j])),
        decreases rule.all.len() - k,
    {
        assert(rv.all[k as int] == rule.all@[k as int]@);
        if !hits_exec(hay, &rule.all[k]) {
            all_hit = false;
        }
        k = k + 1;
    }
    let mut any_hit = rule.any.len() == 0;
    let mut k: usize = 0;
    while k < rule.any.len()
        invariant
            k <= rule.any.len(),
            rv == rule@,
            any_hit == (rule.any.len() == 0 || exists|j: int| 0 <= j < k && hits(hay@, #[trigger] rv.any[j])),
        decreases rule.any.len() - k,
    {
        assert(rv.any[k as int] == rule.any@[k as int]@);
        if hits_exec(hay, &rule.any[k]) {
            any_hit = true;
        }
        k = k + 1;
    }
    !(rule.all.len() == 0 && rule.any.len() == 0) && all_hit && any_hit
}

fn rule_matches(rule: &Rule, snap: &Snapshot) -> (r: bool)
    ensures
        r == rule_matches_view(rule@, snap@),
{
    let hay = haystack_chars(snap);
    rule_matches_hay(rule, &hay, Ghost(snap@))
}

/// Whether `rule` matches `snap`.
pub fn matches_rule(rule: &Rule, snap: &Snapshot) -> (r: bool)
    ensures
        r == rule_matches_view(rule@, snap@),
{
    rule_matches(rule, snap)
}

/// The rule that applies to what is in front, if any.
pub fn matches<'a>(cfg: &'a Config, snap: &Snapshot) -> (r: Option<&'a Rule>)
    ensures
        r is Some == match_index(cfg@, snap@) is Some,
        r is Some ==> match_index(cfg@, snap@) == Some(index_of_match(cfg@, snap@)) && r->0@
            == cfg@.rules[index_of_match(cfg@, snap@)],
{
    if !cfg.enabled {
        return None;
    }
    if snap.title.as_str().is_empty() && snap.url.as_str().is_empty() {
        return None;
    }
    let hay = haystack_chars(snap);
    let ghost never = strings_view(cfg.never@);
    let mut k: usize = 0;
    while k < cfg.never.len()
        invariant
            k <= cfg.never.len(),
            never == strings_view(cfg.never@),
            hay@ == haystack_view(snap@),
            forall|j: int| 0 <= j < k ==> !(pattern_key(#[trigger] never[j]).len() > 0 && hits(hay@, never[j])),
        decreases cfg.never.len() - k,
    {
        let p = key_of(&cfg.never[k]);
        assert(never[k as int] == cfg.never@[k as int]@);
        if p.len() > 0 && contains_exec(&hay, &p) {
            return None;
        }
        k = k + 1;
    }
    let ghost rules = rules_view(cfg.rules@);
    assert(!never_hit(never, hay@));
    assert(match_index(cfg@, snap@) == first_match_from(rules, snap@, 0));
    let mut i: usize = 0;
    while i < cfg.rules.len()
        invariant
            i <= cfg.rules.len(),
            rules == rules_view(cfg.rules@),
            hay@ == haystack_view(snap@),
            first_match_from(rules, snap@, 0) == first_match_from(rules, snap@, i as int),
            match_index(cfg@, snap@) == first_match_from(rules, snap@, 0),
        decreases cfg.rules.len() - i,
    {
        assert(rules[i as int] == cfg.rules@[i as int]@);
        if rule_matches_hay(&cfg.rules[i], &hay, Ghost(snap@)) {
            return Some(&cfg.rules[i]);
        }
        i = i + 1;
    }
    None
}

proof fn lemma_first_match_from(rules: Seq<RuleView>, s: SnapshotView, i: int)
    requires
        0 <= i,
    ensures
        match first_match_from(rules, s, i) {
            Some(m) => {
                &&& i <= m < rules.len()
                &&& rule_matches_view(rules[m], s)
                &&& forall|j: int| i <= j < m ==> !rule_matches_view(#[trigger] rules[j], s)
            },
            None => forall|j: int| i <= j < rules.len() ==> !rule_matches_view(#[trigger] rules[j], s),
        },
    decreases rules.len() - i,
{
    if i < rules.len() && !rule_matches_view(rules[i], s) {
        lemma_first_match_from(rules, s, i + 1);
    }
}

/// Law: the rule chosen is the first rule that matches: it matches and no
/// rule before it does; and with patrol on, a title or URL to read and no
/// never entry hitting, some rule is chosen whenever any rule matches.
pub proof fn match_is_first_matching_rule(c: ConfigView, s: SnapshotView)
    ensures
        match match_index(c, s) {
            Some(i) => {
                &&& 0 <= i < c.rules.len()
                &&& rule_matches_view(c.rules[i], s)
                &&& forall|j: int| 0 <= j < i ==> !rule_matches_view(#[trigger] c.rules[j], s)
            },
            None => true,
        },
        (c.enabled && (s.title.len() > 0 || s.url.len() > 0) && !never_hit(c.never, haystack_view(s)) && exists|
            j: int,
        | 0 <= j < c.rules.len() && rule_matches_view(#[trigger] c.rules[j], s)) ==> match_index(c, s) is Some,
{
    lemma_first_match_from(c.rules, s, 0);
}

/// Law: a never entry that occurs, trimmed and ASCII-lowercased, in the
/// lowercased text of the window wins over every rule.
pub proof fn never_entry_blocks_every_rule(c: ConfigView, s: SnapshotView, k: int)
    requires
        0 <= k < c.never.len(),
        lower(trim(c.never[k])).len() > 0,
        contains(haystack_view(s), lower(trim(c.never[k]))),
    ensures
        match_index(c, s) is None,
{
    assert(pattern_key(c.never[k]) == lower(trim(c.never[k])));
}

/// Law: the never list ignores ASCII case: replacing an entry by one that
/// differs from it only in the case of ASCII letters changes no match.
pub proof fn never_list_ignores_ascii_case(c: ConfigView, s: SnapshotView, k: int, q: Seq<char>)
    requires
        0 <= k < c.never.len(),
        lower(q) == lower(c.never[k]),
    ensures
        match_index(ConfigView { never: c.never.update(k, q), ..c }, s) == match_index(c, s),
{
    let p = c.never[k];
    let n2 = c.never.update(k, q);
    lemma_trim_lower(q);
    lemma_trim_lower(p);
    assert(pattern_key(q) == pattern_key(p));
    assert forall|j: int| 0 <= j < n2.len() implies pattern_key(#[trigger] n2[j]) == pattern_key(c.never[j]) by {
        if j == k {
            assert(n2[j] == q);
        }
    }
    let hay = haystack_view(s);
    if never_hit(c.never, hay) {
        let j = choose|j: int| 0 <= j < c.never.len() && pattern_key(#[trigger] c.never[j]).len() > 0 && hits(hay, c.never[j]);
        assert(pattern_key(n2[j]) == pattern_key(c.never[j]));
    }
    if never_hit(n2, hay) {
        let j = choose|j: int| 0 <= j < n2.len() && pattern_key(#[trigger] n2[j]).len() > 0 && hits(hay, n2[j]);
        assert(pattern_key(n2[j]) == pattern_key(c.never[j]));
    }
    assert(never_hit(n2, hay) == never_hit(c.never, hay));
}

/// Law: writing a never entry in lower case changes no match.
pub proof fn lowercasing_a_never_entry_changes_nothing(c: ConfigView, s: SnapshotView, k: int)
    requires
        0 <= k < c.never.len(),
    ensures
        match_index(ConfigView { never: c.never.update(k, lower(c.never[k])), ..c }, s) == match_index(c, s),
{
    lemma_lower_idempotent(c.never[k]);
    never_list_ignores_ascii_case(c, s, k, lower(c.never[k]));
}

proof fn lemma_first_match_same_text(rules: Seq<RuleView>, s: SnapshotView, s2: SnapshotView, i: int)
    requires
        0 <= i,
        haystack_view(s) == haystack_view(s2),
    ensures
        first_match_from(rules, s, i) == first_match_from(rules, s2, i),
    decreases rules.len() - i,
{
    if i < rules.len() {
        assert(rule_matches_view(rules[i], s) == rule_matches_view(rules[i], s2));
        lemma_first_match_same_text(rules, s, s2, i + 1);
    }
}

/// Law: matching ignores the ASCII case of the window's text: two
/// windows whose URL, title and process name differ only in the case of
/// ASCII letters get the same rule.
pub proof fn matching_ignores_ascii_case_of_the_window(c: ConfigView, s: SnapshotView, s2: SnapshotView)
    requires
        lower(s.url) == lower(s2.url),
        lower(s.title) == lower(s2.title),
        lower(s.proc) == lower(s2.proc),
    ensures
        match_index(c, s) == match_index(c, s2),
{
    assert(s.url.len() == lower(s.url).len() && s2.url.len() == lower(s2.url).len());
    assert(s.title.len() == lower(s.title).len() && s2.title.len() == lower(s2.title).len());
    lemma_first_match_same_text(c.rules, s, s2, 0);
}

/// Law: rule patterns ignore ASCII case: replacing an `all` or an `any`
/// pattern of a rule by one that differs from it only in the case of
/// ASCII letters changes whether the rule matches in no window.
pub proof fn rule_patterns_ignore_ascii_case(r: RuleView, s: SnapshotView, k: int, q: Seq<char>)
    ensures
        0 <= k < r.all.len() && lower(q) == lower(r.all[k]) ==> rule_matches_view(
            RuleView { all: r.all.update(k, q), ..r },
            s,
        ) == rule_matches_view(r, s),
        0 <= k < r.any.len() && lower(q) == lower(r.any[k]) ==> rule_matches_view(
            RuleView { any: r.any.update(k, q), ..r },
            s,
        ) == rule_matches_view(r, s),
{
    let hay = haystack_view(s);
    lemma_trim_lower(q);
    if 0 <= k < r.all.len() && lower(q) == lower(r.all[k]) {
        lemma_trim_lower(r.all[k]);
        let a2 = r.all.update(k, q);
        assert(pattern_key(q) == pattern_key(r.all[k]));
        assert forall|j: int| 0 <= j < a2.len() implies hits(hay, #[trigger] a2[j]) == hits(hay, r.all[j]) by {
            if j == k {
                assert(a2[j] == q);
            }
        }
        let r2 = RuleView { all: a2, ..r };
        assert((forall|j: int| 0 <= j < r2.all.len() ==> hits(hay, #[trigger] r2.all[j])) == (forall|j: int|
            0 <= j < r.all.len() ==> hits(hay, #[trigger] r.all[j]))) by {
            if forall|j: int| 0 <= j < r.all.len() ==> hits(hay, #[trigger] r.all[j]) {
                assert forall|j: int| 0 <= j < r2.all.len() implies hits(hay, #[trigger] r2.all[j]) by {
                    assert(hits(hay, r.all[j]));
                }
            }
            if forall|j: int| 0 <= j < r2.all.len() ==> hits(hay, #[trigger] r2.all[j]) {
                assert forall|j: int| 0 <= j < r.all.len() implies hits(hay, #[trigger] r.all[j]) by {
                    assert(hits(hay, r2.all[j]));
                }
            }
        }
        assert(rule_matches_view(r2, s) == rule_matches_view(r, s));
    }
    if 0 <= k < r.any.len() && lower(q) == lower(r.any[k]) {
        lemma_trim_lower(r.any[k]);
        let a2 = r.any.update(k, q);
        assert(pattern_key(q) == pattern_key(r.any[k]));
        assert forall|j: int| 0 <= j < a2.len() implies hits(hay, #[trigger] a2[j]) == hits(hay, r.any[j]) by {
            if j == k {
                assert(a2[j] == q);
            }
        }
        let r2 = RuleView { any: a2, ..r };
        assert(r2.any == a2 && r2.all == r.all && r2.enabled == r.enabled);
        if exists|j: int| 0 <= j < r.any.len() && hits(hay, #[trigger] r.any[j]) {
            let j = choose|j: int| 0 <= j < r.any.len() && hits(hay, #[trigger] r.any[j]);
            assert(hits(hay, r2.any[j]));
        }
        if exists|j: int| 0 <= j < r2.any.len() && hits(hay, #[trigger] r2.any[j]) {
            let j = choose|j: int| 0 <= j < r2.any.len() && hits(hay, #[trigger] r2.any[j]);
            assert(hits(hay, r.any[j]));
        }
        assert((exists|j: int| 0 <= j < r.any.len() && hits(hay, #[trigger] r.any[j])) == (exists|j: int|
            0 <= j < r2.any.len() && hits(hay, #[trigger] r2.any[j])));
        assert((forall|j: int| 0 <= j < r.all.len() ==> hits(hay, #[trigger] r.all[j])) == (forall|j: int|
            0 <= j < r2.all.len() ==> hits(hay, #[trigger] r2.all[j])));
        assert(rule_matches_view(r2, s) == rule_matches_view(r, s));
    }
}

pub open spec fn index_of_match(c: ConfigView, s: SnapshotView) -> int {
    match match_index(c, s) {
        Some(i) => i,
        None => 0,
    }
}

/// `s` with its URL cleared.
pub open spec fn without_url(s: SnapshotView) -> SnapshotView {
    SnapshotView { url: Seq::empty(), ..s }
}

/// The rule only matched because the URL was available.
pub open spec fn requires_url_view(r: RuleView, s: SnapshotView) -> bool {
    s.url.len() > 0 && rule_matches_view(r, s) && !rule_matches_view(r, without_url(s))
}

/// Whether this rule only matched because the foreground URL was
/// available. A close ticket remembers this so a failed address-bar read
/// at action time cannot silently weaken a URL rule into a title rule.
pub fn requires_url(rule: &Rule, snap: &Snapshot) -> (r: bool)
    ensures
        r == requires_url_view(rule@, snap@),
{
    if snap.url.as_str().is_empty() || !rule_matches(rule, snap) {
        return false;
    }
    let mut without = snap.clone();
    without.url = String::new();
    assert(without@ == without_url(snap@));
    !rule_matches(rule, &without)
}

/// The action for a matched window: the rule's own `close`, otherwise a
/// tab close in a browser and a window close anywhere else.
pub open spec fn action_for_view(r: RuleView, s: SnapshotView) -> RuleAction {
    if r.action == RuleAction::Close {
        RuleAction::Close
    } else if is_browser_view(s.proc) {
        RuleAction::Tab
    } else {
        RuleAction::Close
    }
}

/// A browser tab is cheap to close; a desktop app is not, so anything
/// that is not a browser gets a real window close instead of Ctrl+W.
pub fn action_for(rule: &Rule, snap: &Snapshot) -> (r: RuleAction)
    ensures
        r == action_for_view(rule@, snap@),
{
    if rule.action == RuleAction::Close {
        return RuleAction::Close;
    }
    if is_browser(snap.proc.as_str()) {
        RuleAction::Tab
    } else {
        RuleAction::Close
    }
}

} // verus!
