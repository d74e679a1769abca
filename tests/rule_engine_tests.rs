use mail_automation::models::EmailMessage;
use mail_automation::rules::{
    process_automation_rules, AutomationRule, RuleAction, RuleConditions,
};

const WEDNESDAY_10: i64 = 1706659200 + 10 * 3600;
const SATURDAY_NOON: i64 = 1704499200 + 12 * 3600;

fn message(to: &str, subject: &str, body: &str) -> EmailMessage {
    EmailMessage {
        to: vec![to.to_string()],
        cc: None,
        bcc: None,
        subject: subject.to_string(),
        body: body.to_string(),
        attachments: None,
    }
}

fn rule(id: i32, keywords: &[&str], sender: Option<&str>, business: bool, active: bool) -> AutomationRule {
    AutomationRule {
        id,
        user_id: 1,
        rule_name: format!("rule {}", id),
        keywords: keywords.iter().map(|k| k.to_string()).collect(),
        conditions: RuleConditions {
            sender_pattern: sender.map(|s| s.to_string()),
            business_hours_only: business,
        },
        actions: vec![RuleAction::AutoReply { template_id: Some(id as i64) }, RuleAction::MarkAsRead],
        is_active: active,
        created_at: 0,
    }
}

#[test]
fn keywords_match_case_insensitively_in_subject_or_body() {
    let m = message("me@x.com", "Quarterly INVOICE", "please pay");
    let rules = vec![rule(1, &["invoice"], None, false, true), rule(2, &["PAY"], None, false, true)];
    let r = process_automation_rules(&m, &rules, WEDNESDAY_10);
    assert_eq!(r.len(), 2);
    assert_eq!(r[0], rules[0].actions);
    assert_eq!(r[1], rules[1].actions);
}

#[test]
fn keyword_may_span_subject_and_body_joined_by_a_space() {
    let m = message("me@x.com", "hello", "world");
    let rules = vec![rule(1, &["hello world"], None, false, true)];
    assert_eq!(process_automation_rules(&m, &rules, WEDNESDAY_10).len(), 1);
}

#[test]
fn no_keyword_no_actions() {
    let m = message("me@x.com", "hello", "world");
    let rules = vec![rule(1, &["invoice", "refund"], None, false, true), rule(2, &[], None, false, true)];
    assert!(process_automation_rules(&m, &rules, WEDNESDAY_10).is_empty());
}

#[test]
fn inactive_rules_are_skipped_and_do_not_disturb_others() {
    let m = message("me@x.com", "invoice", "");
    let active = rule(1, &["invoice"], None, false, true);
    let inactive = rule(2, &["invoice"], None, false, false);
    let alone = process_automation_rules(&m, &vec![active.clone()], WEDNESDAY_10);
    let mixed = process_automation_rules(&m, &vec![inactive.clone(), active.clone(), inactive], WEDNESDAY_10);
    assert_eq!(alone, mixed);
    assert_eq!(mixed.len(), 1);
}

#[test]
fn sender_pattern_vetoes_non_matching_address() {
    let m = message("boss@corp.com", "urgent", "");
    let rules = vec![
        rule(1, &["urgent"], Some("@corp\\.com$"), false, true),
        rule(2, &["urgent"], Some("@other\\.com$"), false, true),
        // A pattern that does not compile vetoes nothing.
        rule(3, &["urgent"], Some("(unclosed"), false, true),
    ];
    let r = process_automation_rules(&m, &rules, WEDNESDAY_10);
    assert_eq!(r, vec![rules[0].actions.clone(), rules[2].actions.clone()]);
}

#[test]
fn business_hours_rule_silent_on_saturday() {
    let m = message("me@x.com", "invoice", "invoice");
    let rules = vec![rule(1, &["invoice"], None, true, true), rule(2, &["invoice"], None, false, true)];
    let r = process_automation_rules(&m, &rules, SATURDAY_NOON);
    assert_eq!(r, vec![rules[1].actions.clone()]);
    let r = process_automation_rules(&m, &rules, WEDNESDAY_10);
    assert_eq!(r.len(), 2);
}

#[test]
fn business_hours_rule_silent_in_the_evening() {
    let m = message("me@x.com", "invoice", "");
    let rules = vec![rule(1, &["invoice"], None, true, true)];
    assert!(process_automation_rules(&m, &rules, 1706659200 + 20 * 3600).is_empty());
    // Monday 2024-01-08, 17:30: after business hours.
    assert!(process_automation_rules(&m, &rules, 1704672000 + 17 * 3600 + 1800).is_empty());
    assert_eq!(process_automation_rules(&m, &rules, 1704672000 + 16 * 3600 + 1800).len(), 1);
}

#[test]
fn reordering_rules_reorders_the_result() {
    let m = message("me@x.com", "invoice refund", "");
    let rules = vec![
        rule(1, &["invoice"], None, false, true),
        rule(2, &["nothing"], None, false, true),
        rule(3, &["refund"], None, false, true),
    ];
    let forward = process_automation_rules(&m, &rules, WEDNESDAY_10);
    let mut reversed_rules = rules.clone();
    reversed_rules.reverse();
    let mut backward = process_automation_rules(&m, &reversed_rules, WEDNESDAY_10);
    assert_eq!(forward, vec![rules[0].actions.clone(), rules[2].actions.clone()]);
    backward.reverse();
    assert_eq!(forward, backward);
}
