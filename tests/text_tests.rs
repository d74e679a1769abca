use mail_automation::inbox::{auto_reply_message, auto_reply_template, InboxEmail};
use mail_automation::rules::RuleAction;
use mail_automation::scheduler::{
    find_active_account, resolve_firing, scheduled_recipients, select_due, template_body,
    template_subject, EmailAccount, EmailTemplate, FiringError, ItemStatus, ScheduledItem,
};
use mail_automation::text::{
    categorize_attachment, extract_email_address, html_to_text, is_html, AddressError,
};

#[test]
fn test_html_to_text() {
    let html = "<html><body><h1>Hello</h1><p>World</p></body></html>";
    let text = html_to_text(html);
    assert_eq!(text, "HelloWorld");
}

#[test]
fn tag_stripping_edges() {
    assert_eq!(html_to_text("a<b<c>d"), "ad");
    assert_eq!(html_to_text("x<y"), "x<y");
    assert_eq!(html_to_text("1 > 0 <b>bold</b> <"), "1 > 0 bold <");
    assert_eq!(html_to_text(""), "");
}

#[test]
fn html_detection() {
    assert!(is_html("<html><body>x</body></html>"));
    assert!(is_html("pre <HTML> post"));
    assert!(!is_html("<Html>"));
    assert!(!is_html("plain text"));
}

#[test]
fn attachment_categories() {
    let c = |m: Option<&str>| categorize_attachment(&m.map(|s| s.to_string()));
    assert_eq!(c(Some("image/png")), "image");
    assert_eq!(c(Some("application/pdf")), "document");
    assert_eq!(c(Some("application/vnd.openxmlformats-officedocument.wordprocessingml.document")), "document");
    assert_eq!(c(Some("text/plain")), "document");
    assert_eq!(c(Some("application/zip")), "archive");
    assert_eq!(c(Some("application/x-7z-compressed")), "archive");
    assert_eq!(c(Some("audio/mpeg")), "other");
    assert_eq!(c(Some("image")), "other");
    assert_eq!(c(None), "other");
}

#[test]
fn sender_addresses() {
    assert_eq!(extract_email_address("Ann <ann@x.com>"), Ok("ann@x.com".to_string()));
    assert_eq!(extract_email_address("  bob@x.com  "), Ok("bob@x.com".to_string()));
    assert_eq!(extract_email_address("> odd < c@x.com"), Ok("> odd < c@x.com".to_string()));
    assert_eq!(extract_email_address("no address"), Err(AddressError::NoAddress));
    assert_eq!(extract_email_address("\u{3000}\t e@x.com\u{a0}\n"), Ok("e@x.com".to_string()));
    assert_eq!(extract_email_address("\u{200b}e@x.com"), Ok("\u{200b}e@x.com".to_string()));
}

fn inbox(sender: &str) -> InboxEmail {
    InboxEmail {
        id: "42".to_string(),
        subject: "Question".to_string(),
        sender: sender.to_string(),
        received_at: 0,
        body: "?".to_string(),
        attachments: vec![],
        is_read: false,
    }
}

#[test]
fn auto_reply_defaults() {
    let m = auto_reply_message(&inbox("Ann <ann@x.com>"), None, None).unwrap();
    assert_eq!(m.to, vec!["ann@x.com".to_string()]);
    assert_eq!(m.subject, "Re: Question");
    assert_eq!(m.body, "Thank you for your email. This is an automated response.");
    let m = auto_reply_message(&inbox("ann@x.com"), Some("Away".to_string()), Some("Back Monday".to_string())).unwrap();
    assert_eq!(m.subject, "Away");
    assert_eq!(m.body, "Back Monday");
    assert_eq!(auto_reply_message(&inbox("nobody"), None, None), Err(AddressError::NoAddress));
}

#[test]
fn auto_reply_actions() {
    assert_eq!(auto_reply_template(&RuleAction::AutoReply { template_id: Some(5) }), Some(5));
    assert_eq!(auto_reply_template(&RuleAction::AutoReply { template_id: None }), None);
    assert_eq!(auto_reply_template(&RuleAction::MarkAsRead), None);
}

fn account(id: i32, active: bool) -> EmailAccount {
    EmailAccount {
        id,
        user_id: 1,
        account_name: "main".to_string(),
        email_address: "me@x.com".to_string(),
        imap_server: None,
        imap_port: None,
        smtp_server: Some("smtp.x.com".to_string()),
        smtp_port: Some(587),
        username: "me".to_string(),
        password_encrypted: "SECRET-REDACTED".to_string(),
        is_active: active,
        created_at: 0,
    }
}

fn template(subject: Option<&str>, body: Option<&str>) -> EmailTemplate {
    EmailTemplate {
        id: 11,
        user_id: 1,
        name: "t".to_string(),
        subject: subject.map(|s| s.to_string()),
        body: body.map(|s| s.to_string()),
        template_type: None,
        created_at: 0,
        updated_at: 0,
    }
}

fn scheduled(template_id: Option<i32>, time: i64, status: ItemStatus) -> ScheduledItem {
    ScheduledItem {
        id: 1,
        user_id: 1,
        template_id,
        recipient_list: vec!["a@x.com".to_string(), "b@x.com".to_string()],
        scheduled_time: time,
        recurrence_pattern: None,
        status,
        created_at: 0,
    }
}

#[test]
fn firing_resolution() {
    let accounts = vec![account(1, false), account(2, true), account(3, true)];
    assert_eq!(find_active_account(&accounts), Some(1));
    let t = template(Some("S"), None);
    let item = scheduled(Some(11), 0, ItemStatus::Pending);
    let (a, tt) = resolve_firing(&item, &accounts, Some(&t)).unwrap();
    assert_eq!(a.id, 2);
    assert_eq!(tt.id, 11);
    assert_eq!(resolve_firing(&item, &vec![account(1, false)], Some(&t)).unwrap_err(), FiringError::NoActiveAccount);
    assert_eq!(resolve_firing(&scheduled(None, 0, ItemStatus::Pending), &accounts, Some(&t)).unwrap_err(), FiringError::NoTemplate);
    assert_eq!(resolve_firing(&item, &accounts, None).unwrap_err(), FiringError::TemplateNotFound);
    assert_eq!(template_subject(&t), "S");
    assert_eq!(template_body(&t), "No Content");
    assert_eq!(template_subject(&template(None, Some("B"))), "No Subject");
    let rs = scheduled_recipients(&item);
    assert_eq!(rs.len(), 2);
    assert_eq!(rs[1].email, "b@x.com");
    assert!(rs[0].variables.is_empty());
}

#[test]
fn due_selection() {
    let items = vec![
        scheduled(Some(1), 100, ItemStatus::Pending),
        scheduled(Some(1), 300, ItemStatus::Pending),
        scheduled(Some(1), 50, ItemStatus::Sent),
        scheduled(Some(1), 200, ItemStatus::Pending),
        scheduled(Some(1), 10, ItemStatus::Failed),
    ];
    assert_eq!(select_due(&items, 200), vec![0, 3]);
    assert_eq!(select_due(&items, 0), Vec::<usize>::new());
}
