//! The automation rule engine: which rules a message triggers, and the
//! actions they ask for.
//!
//! Evaluation reads its inputs only; carrying out the actions is the
//! caller's business.

use vstd::prelude::*;
use vstd::multiset::Multiset;
use vstd::string::StringExecFns;
use crate::clock::{in_business_hours, is_business_time, weekday_of};
use crate::models::EmailMessage;
use crate::text::{contains_text, lower_of, lowercase, occurs_in};

verus! {

/// What the `regex` crate makes of a pattern and a text: `None` when the
/// pattern does not compile, else whether it matches somewhere in the text.
pub uninterp spec fn regex_verdict(pattern: Seq<char>, text: Seq<char>) -> Option<bool>;

/// Relies on `regex::Regex::new` and `regex::Regex::is_match`: the verdict
/// depends on the pattern and the text alone.
#[verifier::external_body]
fn regex_match(pattern: &str, text: &str) -> (r: Option<bool>)
    ensures
        r == regex_verdict(pattern@, text@),
{
    match regex::Regex::new(pattern) {
        Ok(re) => Some(re.is_match(text)),
        Err(_) => None,
    }
}

/// One thing a triggered rule asks its caller to do.
#[derive(Clone, Debug, PartialEq, Eq)]
pub enum RuleAction {
    /// Reply with the given template.
    AutoReply { template_id: Option<i64> },
    MarkAsRead,
    MoveToFolder { folder: Option<String> },
    /// An action kind this library does not know; callers skip it.
    Other { kind: String },
}

/// Conditions that can veto a rule whose keywords matched.
#[derive(Clone, Debug, PartialEq, Eq)]
pub struct RuleConditions {
    /// A regular expression that the message's first address must match.
    pub sender_pattern: Option<String>,
    /// Only fire on weekdays from 09:00 up to (not including) 17:00, UTC.
    pub business_hours_only: bool,
}

#[derive(Clone, Debug, PartialEq, Eq)]
pub struct AutomationRule {
    pub id: i32,
    pub user_id: i32,
    pub rule_name: String,
    pub keywords: Vec<String>,
    pub conditions: RuleConditions,
    pub actions: Vec<RuleAction>,
    pub is_active: bool,
    /// Creation time, in seconds since the Unix epoch.
    pub created_at: i64,
}

/// The lowercase subject and body, joined by one space.
pub open spec fn message_text(m: EmailMessage) -> Seq<char> {
    lower_of(m.subject@) + seq![' '] + lower_of(m.body@)
}

/// Some keyword, lowercased, occurs in `text`.
pub open spec fn keyword_hit(keywords: Seq<String>, text: Seq<char>) -> bool {
    exists|i: int| 0 <= i < keywords.len() && occurs_in(lower_of(#[trigger] keywords[i]@), text)
}

/// The sender pattern compiles and does not match the message's first address.
pub open spec fn sender_vetoes(c: RuleConditions, m: EmailMessage) -> bool {
    match c.sender_pattern {
        Some(p) => m.to@.len() > 0 && regex_verdict(p@, m.to@[0]@) == Some(false),
        None => false,
    }
}

pub open spec fn hours_veto(c: RuleConditions, now: int) -> bool {
    c.business_hours_only && !is_business_time(now)
}

/// An active rule fires when a keyword matches and no condition vetoes it.
pub open spec fn rule_fires(r: AutomationRule, m: EmailMessage, now: int) -> bool {
    &&& r.is_active
    &&& keyword_hit(r.keywords@, message_text(m))
    &&& !sender_vetoes(r.conditions, m)
    &&& !hours_veto(r.conditions, now)
}

/// The action lists of the rules that fire, in rule order.
pub open spec fn fired_actions(rules: Seq<AutomationRule>, m: EmailMessage, now: int) -> Seq<
    Seq<RuleAction>,
>
    decreases rules.len(),
{
    if rules.len() == 0 {
        seq![]
    } else {
        let rest = fired_actions(rules.drop_last(), m, now);
        if rule_fires(rules.last(), m, now) {
            rest.push(rules.last().actions@)
        } else {
            rest
        }
    }
}

pub open spec fn action_lists(v: Seq<Vec<RuleAction>>) -> Seq<Seq<RuleAction>> {
    v.map_values(|a: Vec<RuleAction>| a@)
}

fn duplicate_action(a: &RuleAction) -> (r: RuleAction)
    ensures
        r == *a,
{
    match a {
        RuleAction::AutoReply { template_id } => RuleAction::AutoReply { template_id: *template_id },
        RuleAction::MarkAsRead => RuleAction::MarkAsRead,
        RuleAction::MoveToFolder { folder } => RuleAction::MoveToFolder {
            folder: match folder {
                Some(f) => Some(f.clone()),
                None => None,
            },
        },
        RuleAction::Other { kind } => RuleAction::Other { kind: kind.clone() },
    }
}

fn duplicate_actions(v: &Vec<RuleAction>) -> (r: Vec<RuleAction>)
    ensures
        r@ == v@,
{
    let mut out: Vec<RuleAction> = Vec::new();
    let mut i: usize = 0;
    while i < v.len()
        invariant
            i <= v@.len(),
            out@ == v@.subrange(0, i as int),
        decreases v@.len() - i,
    {
        out.push(duplicate_action(&v[i]));
        proof {
            assert(v@.subrange(0, i + 1) == v@.subrange(0, i as int).push(v@[i as int]));
        }
        i = i + 1;
    }
    proof {
        assert(v@.subrange(0, v@.len() as int) == v@);
    }
    out
}

/// The lowercase subject and body of `m`, joined by one space.
pub fn searchable_text(m: &EmailMessage) -> (r: String)
    ensures
        r@ == message_text(*m),
{
    let subject = lowercase(m.subject.as_str());
    let body = lowercase(m.body.as_str());
    let joined = subject.concat(" ");
    proof {
        reveal_strlit(" ");
    }
    joined.concat(body.as_str())
}

/// Whether some keyword, lowercased, occurs in `text`.
pub fn matches_any_keyword(keywords: &Vec<String>, text: &str) -> (r: bool)
    ensures
        r == keyword_hit(keywords@, text@),
{
    let mut i: usize = 0;
    while i < keywords.len()
        invariant
            i <= keywords@.len(),
            forall|k: int| 0 <= k < i ==> !occurs_in(lower_of(#[trigger] keywords@[k]@), text@),
        decreases keywords@.len() - i,
    {
        let kw = lowercase(keywords[i].as_str());
        if contains_text(text, kw.as_str()) {
            return true;
        }
        i = i + 1;
    }
    false
}

/// Whether `rule` fires on `email` at instant `now`.
pub fn rule_triggers(rule: &AutomationRule, email: &EmailMessage, text: &str, now: i64) -> (r:
    bool)
    requires
        text@ == message_text(*email),
    ensures
        r == rule_fires(*rule, *email, now as int),
{
    if !rule.is_active {
        return false;
    }
    if !matches_any_keyword(&rule.keywords, text) {
        return false;
    }
    if let Some(pattern) = &rule.conditions.sender_pattern {
        if email.to.len() > 0 {
            if let Some(false) = regex_match(pattern.as_str(), email.to[0].as_str()) {
                return false;
            }
        }
    }
    if rule.conditions.business_hours_only && !in_business_hours(now) {
        return false;
    }
    true
}

/// The action lists of the rules that `email` triggers at instant `now`,
/// in the order of `rules`.
pub fn process_automation_rules(email: &EmailMessage, rules: &Vec<AutomationRule>, now: i64) -> (r:
    Vec<Vec<RuleAction>>)
    ensures
        action_lists(r@) == fired_actions(rules@, *email, now as int),
{
    let text = searchable_text(email);
    let mut out: Vec<Vec<RuleAction>> = Vec::new();
    let mut i: usize = 0;
    while i < rules.len()
        invariant
            i <= rules@.len(),
            text@ == message_text(*email),
            action_lists(out@) == fired_actions(rules@.subrange(0, i as int), *email, now as int),
        decreases rules@.len() - i,
    {
        let ghost prefix = rules@.subrange(0, i + 1);
        proof {
            assert(prefix.drop_last() == rules@.subrange(0, i as int));
            assert(prefix.last() == rules@[i as int]);
        }
        if rule_triggers(&rules[i], email, text.as_str(), now) {
            let actions = duplicate_actions(&rules[i].actions);
            out.push(actions);
            proof {
                assert(action_lists(out@) == action_lists(out@.drop_last()).push(actions@));
                assert(out@.drop_last() =~= out@.subrange(0, out@.len() - 1));
            }
        }
        i = i + 1;
    }
    proof {
        assert(rules@.subrange(0, rules@.len() as int) == rules@);
    }
    out
}

pub open spec fn is_active_rule(r: AutomationRule) -> bool {
    r.is_active
}

/// Only the active rules, in order, decide the result.
proof fn lemma_fired_actions_of_active(rules: Seq<AutomationRule>, m: EmailMessage, now: int)
    ensures
        fired_actions(rules, m, now) == fired_actions(
            rules.filter(|r: AutomationRule| is_active_rule(r)),
            m,
            now,
        ),
    decreases rules.len(),
{
    reveal(Seq::filter);
    let pred = |r: AutomationRule| is_active_rule(r);
    if rules.len() > 0 {
        lemma_fired_actions_of_active(rules.drop_last(), m, now);
        let sub = rules.drop_last().filter(pred);
        if rules.last().is_active {
            assert(rules.filter(pred) == sub.push(rules.last()));
            assert(sub.push(rules.last()).drop_last() == sub);
        } else {
            assert(rules.filter(pred) == sub);
        }
    }
}

/// Inactive rules contribute nothing and leave the actions of the other
/// rules as they are: two rule lists whose active rules are the same, in
/// the same order, give the same result, wherever and however many inactive
/// rules stand between them.
pub proof fn lemma_inactive_rules_irrelevant(
    rules1: Seq<AutomationRule>,
    rules2: Seq<AutomationRule>,
    m: EmailMessage,
    now: int,
)
    requires
        rules1.filter(|r: AutomationRule| is_active_rule(r)) == rules2.filter(
            |r: AutomationRule| is_active_rule(r),
        ),
    ensures
        fired_actions(rules1, m, now) == fired_actions(rules2, m, now),
{
    lemma_fired_actions_of_active(rules1, m, now);
    lemma_fired_actions_of_active(rules2, m, now);
}

/// Whether and what a rule contributes depends on that rule alone: the
/// result is the action lists of exactly the rules that fire, in rule order.
pub proof fn lemma_each_rule_decides_alone(rules: Seq<AutomationRule>, m: EmailMessage, now: int)
    ensures
        fired_actions(rules, m, now) == rules.filter(|r: AutomationRule| rule_fires(r, m, now)).map_values(
            |r: AutomationRule| r.actions@,
        ),
    decreases rules.len(),
{
    reveal(Seq::filter);
    let pred = |r: AutomationRule| rule_fires(r, m, now);
    let f = |r: AutomationRule| r.actions@;
    if rules.len() == 0 {
        assert(rules.filter(pred).map_values(f) =~= Seq::<Seq<RuleAction>>::empty());
    } else {
        lemma_each_rule_decides_alone(rules.drop_last(), m, now);
        let sub = rules.drop_last().filter(pred);
        if rule_fires(rules.last(), m, now) {
            assert(rules.filter(pred) == sub.push(rules.last()));
            assert(sub.push(rules.last()).map_values(f) =~= sub.map_values(f).push(rules.last().actions@));
        } else {
            assert(rules.filter(pred) == sub);
        }
    }
}

/// How many of `rules` fire and contribute exactly the action list `x`.
pub open spec fn contributions(rules: Seq<AutomationRule>, m: EmailMessage, now: int, x: Seq<RuleAction>) -> nat
    decreases rules.len(),
{
    if rules.len() == 0 {
        0
    } else {
        contributions(rules.drop_last(), m, now, x) + if rule_fires(rules.last(), m, now)
            && rules.last().actions@ == x {
            1nat
        } else {
            0nat
        }
    }
}

proof fn lemma_contributions_count(rules: Seq<AutomationRule>, m: EmailMessage, now: int, x: Seq<RuleAction>)
    ensures
        fired_actions(rules, m, now).to_multiset().count(x) == contributions(rules, m, now, x),
    decreases rules.len(),
{
    broadcast use vstd::seq_lib::to_multiset_build, vstd::seq_lib::to_multiset_len,
        vstd::multiset::group_multiset_axioms;

    if rules.len() == 0 {
        assert(fired_actions(rules, m, now).len() == 0);
        vstd::multiset::lemma_multiset_empty_len(fired_actions(rules, m, now).to_multiset());
        assert(fired_actions(rules, m, now).to_multiset() == Multiset::<Seq<RuleAction>>::empty());
    } else {
        lemma_contributions_count(rules.drop_last(), m, now, x);
    }
}

proof fn lemma_contributions_remove(rules: Seq<AutomationRule>, m: EmailMessage, now: int, x: Seq<RuleAction>, i: int)
    requires
        0 <= i < rules.len(),
    ensures
        contributions(rules, m, now, x) == contributions(rules.remove(i), m, now, x) + if rule_fires(
            rules[i],
            m,
            now,
        ) && rules[i].actions@ == x {
            1nat
        } else {
            0nat
        },
    decreases rules.len(),
{
    if i == rules.len() - 1 {
        assert(rules.remove(i) =~= rules.drop_last());
    } else {
        lemma_contributions_remove(rules.drop_last(), m, now, x, i);
        assert(rules.remove(i).drop_last() =~= rules.drop_last().remove(i));
        assert(rules.remove(i).last() == rules.last());
    }
}

proof fn lemma_contributions_permutation(
    rules: Seq<AutomationRule>,
    perm: Seq<AutomationRule>,
    m: EmailMessage,
    now: int,
    x: Seq<RuleAction>,
)
    requires
        perm.to_multiset() == rules.to_multiset(),
    ensures
        contributions(perm, m, now, x) == contributions(rules, m, now, x),
    decreases rules.len(),
{
    broadcast use vstd::seq_lib::to_multiset_build, vstd::seq_lib::to_multiset_remove,
        vstd::seq_lib::to_multiset_contains, vstd::seq_lib::to_multiset_len,
        vstd::multiset::group_multiset_axioms;

    if rules.len() == 0 {
        assert(perm.to_multiset().len() == 0);
        assert(perm.len() == 0);
    } else {
        let a = rules.last();
        assert(rules.drop_last().push(a) == rules);
        assert(rules.to_multiset() =~= rules.drop_last().to_multiset().insert(a));
        assert(perm.to_multiset().count(a) > 0);
        assert(perm.contains(a));
        let i = choose|i: int| 0 <= i < perm.len() && perm[i] == a;
        assert(perm.remove(i).to_multiset() == perm.to_multiset().remove(a));
        assert(perm.remove(i).to_multiset() =~= rules.drop_last().to_multiset());
        lemma_contributions_permutation(rules.drop_last(), perm.remove(i), m, now, x);
        lemma_contributions_remove(perm, m, now, x, i);
    }
}

/// Reordering the rules reorders the result and changes nothing else: the
/// same action lists come out, as many times each.
pub proof fn lemma_rule_order_irrelevant(
    rules: Seq<AutomationRule>,
    perm: Seq<AutomationRule>,
    m: EmailMessage,
    now: int,
)
    requires
        perm.to_multiset() == rules.to_multiset(),
    ensures
        fired_actions(perm, m, now).to_multiset() == fired_actions(rules, m, now).to_multiset(),
{
    assert forall|x: Seq<RuleAction>|
        fired_actions(perm, m, now).to_multiset().count(x) == fired_actions(
            rules,
            m,
            now,
        ).to_multiset().count(x) by {
        lemma_contributions_count(perm, m, now, x);
        lemma_contributions_count(rules, m, now, x);
        lemma_contributions_permutation(rules, perm, m, now, x);
    }
    assert(fired_actions(perm, m, now).to_multiset() =~= fired_actions(rules, m, now).to_multiset());
}

/// A rule limited to business hours never fires on a Saturday or a Sunday,
/// whatever its keywords match.
pub proof fn lemma_business_hours_rule_silent_on_weekend(r: AutomationRule, m: EmailMessage, now: int)
    requires
        r.conditions.business_hours_only,
        weekday_of(now) >= 6,
    ensures
        !rule_fires(r, m, now),
{
}

} // verus!
