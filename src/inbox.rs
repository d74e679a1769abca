//! Replies that automation rules send to incoming mail.

use vstd::prelude::*;
use vstd::string::StringExecFns;
use crate::models::EmailMessage;
use crate::rules::RuleAction;
use crate::text::{address_of, extract_email_address, opt_view, AddressError};

verus! {

/// A message fetched from an inbox.
#[derive(Clone, Debug, PartialEq, Eq)]
pub struct InboxEmail {
    pub id: String,
    pub subject: String,
    pub sender: String,
    /// Seconds since the Unix epoch.
    pub received_at: i64,
    pub body: String,
    pub attachments: Vec<String>,
    pub is_read: bool,
}

/// The template an action asks to reply with, if it is a reply that names one.
pub fn auto_reply_template(action: &RuleAction) -> (r: Option<i64>)
    ensures
        r == (match *action {
            RuleAction::AutoReply { template_id } => template_id,
            _ => None,
        }),
{
    match action {
        RuleAction::AutoReply { template_id } => *template_id,
        _ => None,
    }
}

/// The reply's subject: the template's, else `Re: ` and the incoming one's.
pub open spec fn reply_subject(incoming: Seq<char>, template_subject: Option<Seq<char>>) -> Seq<char> {
    match template_subject {
        Some(s) => s,
        None => "Re: "@ + incoming,
    }
}

/// The reply's body: the template's, else a fixed acknowledgement.
pub open spec fn reply_body(template_body: Option<Seq<char>>) -> Seq<char> {
    match template_body {
        Some(b) => b,
        None => "Thank you for your email. This is an automated response."@,
    }
}

/// The automatic reply to `incoming`, addressed to its sender, built from a
/// template's optional subject and body.
pub fn auto_reply_message(
    incoming: &InboxEmail,
    template_subject: Option<String>,
    template_body: Option<String>,
) -> (r: Result<EmailMessage, AddressError>)
    ensures
        r is Err <==> address_of(incoming.sender@) is Err,
        r matches Ok(m) ==> {
            &&& m.to@.len() == 1
            &&& address_of(incoming.sender@) == Ok::<Seq<char>, AddressError>(m.to@[0]@)
            &&& m.cc is None
            &&& m.bcc is None
            &&& m.attachments is None
            &&& m.subject@ == reply_subject(incoming.subject@, opt_view(template_subject))
            &&& m.body@ == reply_body(opt_view(template_body))
        },
{
    let to = match extract_email_address(incoming.sender.as_str()) {
        Ok(a) => a,
        Err(e) => {
            return Err(e);
        },
    };
    let subject = match template_subject {
        Some(s) => s,
        None => {
            proof {
                reveal_strlit("Re: ");
            }
            "Re: ".to_string().concat(incoming.subject.as_str())
        },
    };
    let body = match template_body {
        Some(b) => b,
        None => "Thank you for your email. This is an automated response.".to_string(),
    };
    let mut recipients: Vec<String> = Vec::new();
    recipients.push(to);
    Ok(EmailMessage { to: recipients, cc: None, bcc: None, subject, body, attachments: None })
}

} // verus!
