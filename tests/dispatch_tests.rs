use mail_automation::campaign::{
    check_recipients, get_campaign_stats, BatchDispatch, CampaignStatus, DispatchError,
    LogStatus,
};
use mail_automation::models::RecipientData;
use mail_automation::personalize::{
    is_plain_template, personalization_context, personalization_context_at, personalize, render_or_raw,
};

fn recipient(email: &str) -> RecipientData {
    RecipientData { email: email.to_string(), variables: vec![] }
}

#[test]
fn empty_recipient_list_is_refused() {
    assert_eq!(check_recipients(&vec![]), Err(DispatchError::NoRecipients));
    assert!(BatchDispatch::start(1, 9, 0).is_err());
    assert_eq!(check_recipients(&vec![recipient("a@x.com")]), Ok(()));
}

#[test]
fn one_failure_makes_a_partial_campaign() {
    let recipients = vec![recipient("a@x.com"), recipient("b@x.com")];
    let mut d = BatchDispatch::start(1, 9, recipients.len()).unwrap();
    assert_eq!(d.status, CampaignStatus::Sending);
    let mut log = Vec::new();
    while let Some(i) = d.next_index() {
        let to = recipients[i].email.as_str();
        let outcome = if to == "b@x.com" { Err("mailbox unavailable".to_string()) } else { Ok(()) };
        log.push(d.record_outcome(to, "Hi", outcome, 100 + i as i64));
    }
    d.finish();
    assert_eq!(d.sent_count, 1);
    assert_eq!(d.failed_count, 1);
    assert_eq!(d.status, CampaignStatus::Partial);
    assert_eq!(log.len(), 2);
    assert_eq!(log[0].recipient, "a@x.com");
    assert_eq!(log[0].status, LogStatus::Sent);
    assert_eq!(log[0].error_message, None);
    assert_eq!(log[1].recipient, "b@x.com");
    assert_eq!(log[1].status, LogStatus::Failed);
    assert_eq!(log[1].error_message.as_deref(), Some("mailbox unavailable"));
    assert_eq!(log[1].campaign_id, Some(9));

    let stats = get_campaign_stats(&log, 1, 9, 2, d.status, 10, 20);
    assert_eq!(stats.created_at, 10);
    assert_eq!(stats.completed_at, Some(20));
    assert_eq!((stats.sent_count, stats.failed_count, stats.pending_count), (1, 1, 0));
}

#[test]
fn all_sent_makes_a_completed_campaign() {
    let mut d = BatchDispatch::start(1, 4, 3).unwrap();
    while d.next_index().is_some() {
        d.record_outcome("x@y.z", "s", Ok(()), 0);
    }
    d.finish();
    assert_eq!(d.status, CampaignStatus::Completed);
    assert_eq!(d.sent_count + d.failed_count, d.total_recipients);
}

#[test]
fn stats_count_only_this_campaign_and_owner() {
    let mut a = BatchDispatch::start(1, 1, 3).unwrap();
    let mut b = BatchDispatch::start(2, 2, 1).unwrap();
    let log = vec![
        a.record_outcome("p@x", "s", Ok(()), 0),
        b.record_outcome("q@x", "s", Ok(()), 0),
        a.record_outcome("r@x", "s", Err("e".to_string()), 0),
    ];
    let s = get_campaign_stats(&log, 1, 1, 3, a.status, 10, 20);
    assert_eq!(s.completed_at, None);
    assert_eq!((s.sent_count, s.failed_count, s.pending_count), (1, 1, 1));
    assert_eq!(s.status, CampaignStatus::Sending);
    let none = get_campaign_stats(&log, 1, 2, 1, CampaignStatus::Sending, 10, 20);
    assert_eq!((none.sent_count, none.failed_count, none.pending_count), (0, 0, 1));
}

#[test]
fn test_template_rendering() {
    let vars = vec![("name".to_string(), "John".to_string())];
    let template = "Hello {{name}}!";
    let result = personalize(template, &vars);
    assert_eq!(result, "Hello John!");
}

#[test]
fn broken_template_is_sent_as_written() {
    let vars = vec![];
    assert_eq!(personalize("Hello {{ name", &vars), "Hello {{ name");
    assert_eq!(render_or_raw(None, "raw"), "raw");
    assert_eq!(render_or_raw(Some("done".to_string()), "raw"), "done");
}

#[test]
fn builtins_override_recipient_variables() {
    let r = RecipientData {
        email: "a@x.com".to_string(),
        variables: vec![("email".to_string(), "spoof".to_string()), ("first".to_string(), "Ann".to_string())],
    };
    let ctx = personalization_context(&r, "2024-01-31");
    assert_eq!(personalize("{{first}} <{{email}}> {{date}}", &ctx), "Ann <a@x.com> 2024-01-31");
    let ctx = personalization_context_at(&r, 1706659200 + 3600).unwrap();
    assert_eq!(personalize("{{date}}", &ctx), "2024-01-31");
}

#[test]
fn only_plain_templates_are_rendered() {
    let vars = vec![("c".to_string(), "e\u{301}".to_string())];
    assert!(is_plain_template("Hi {{ c }}, {x} and {{name_2}}!"));
    assert!(is_plain_template("plain text {"));
    assert!(!is_plain_template("{% for c in \"\r\n\" %}{{ c }}{% endfor %}"));
    assert!(!is_plain_template("{# note #}"));
    assert!(!is_plain_template("{{ c | upper }}"));
    assert!(!is_plain_template("{{ 1c }}"));
    // Tags are never handed to the engine: the text goes out as written.
    let looped = "{% for x in c %}{{ x }}{% endfor %}";
    assert_eq!(personalize(looped, &vars), looped);
    assert_eq!(personalize("{{ c | upper }}", &vars), "{{ c | upper }}");
    assert_eq!(personalize("Hi {{ c }}!", &vars), "Hi e\u{301}!");
    assert_eq!(personalize("no braces here", &vars), "no braces here");
    // A name with no value fails to render: the template goes out unchanged.
    assert_eq!(personalize("Hi {{ missing }}", &vars), "Hi {{ missing }}");
}
