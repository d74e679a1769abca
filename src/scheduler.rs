//! The scheduler's decisions: when its poller runs, which items are due,
//! what one firing needs, and what a firing leaves behind (a terminal status
//! and, for a recurring item, the next item).
//!
//! The timer, the store and the transport stay with the caller, which runs
//! the loop and hands each result back here.

use vstd::prelude::*;
use crate::campaign::{EmailLogEntry, LogStatus};
use crate::models::RecipientData;
use crate::recurrence::{
    calculate_next_occurrence, next_occurrence_of, preset_of, LATEST_INSTANT, RecurrenceError,
};

verus! {

/// Seconds between two polls of the store.
pub const POLL_INTERVAL_SECS: u64 = 60;

/// Milliseconds to wait between two recipients.
pub const INTER_SEND_DELAY_MS: u64 = 100;

#[derive(Clone, Copy, Debug, PartialEq, Eq, Structural)]
pub enum ItemStatus {
    Pending,
    Sent,
    Failed,
}

/// A send stored for later, possibly recurring.
#[derive(Clone, Debug, PartialEq, Eq)]
pub struct ScheduledItem {
    pub id: i32,
    pub user_id: i32,
    pub template_id: Option<i32>,
    pub recipient_list: Vec<String>,
    /// Seconds since the Unix epoch.
    pub scheduled_time: i64,
    pub recurrence_pattern: Option<String>,
    pub status: ItemStatus,
    pub created_at: i64,
}

/// A scheduled send to be inserted into the store.
#[derive(Clone, Debug, PartialEq, Eq)]
pub struct NewScheduledItem {
    pub user_id: i32,
    pub template_id: Option<i32>,
    pub recipient_list: Vec<String>,
    pub scheduled_time: i64,
    pub recurrence_pattern: Option<String>,
}

/// A mail account of a user, as far as sending needs it.
#[derive(Clone, Debug, PartialEq, Eq)]
pub struct EmailAccount {
    pub id: i32,
    pub user_id: i32,
    pub account_name: String,
    pub email_address: String,
    pub imap_server: Option<String>,
    pub imap_port: Option<i32>,
    pub smtp_server: Option<String>,
    pub smtp_port: Option<i32>,
    pub username: String,
    pub password_encrypted: String,
    pub is_active: bool,
    pub created_at: i64,
}

#[derive(Clone, Debug, PartialEq, Eq)]
pub struct EmailTemplate {
    pub id: i32,
    pub user_id: i32,
    pub name: String,
    pub subject: Option<String>,
    pub body: Option<String>,
    pub template_type: Option<String>,
    pub created_at: i64,
    pub updated_at: i64,
}

/// Why one firing did not send.
#[derive(Clone, Debug, PartialEq, Eq)]
pub enum FiringError {
    /// The owner has no active account (not found).
    NoActiveAccount,
    /// The item names no template (a validation error).
    NoTemplate,
    /// The named template does not exist for the owner (not found).
    TemplateNotFound,
    /// The account's credential could not be decrypted (a configuration error).
    Credential(String),
    /// The store could not be read.
    Persistence(String),
    /// The transport refused the batch.
    Transport(String),
}

/// The scheduler's run state. Each start hands out a new generation; a
/// poller keeps running only while its generation is the current one and
/// the scheduler is running, so at most one poller is ever live.
#[derive(Clone, Copy, Debug, PartialEq, Eq, Structural)]
pub struct SchedulerState {
    pub is_running: bool,
    pub generation: u64,
}

#[derive(Clone, Copy, Debug, PartialEq, Eq, Structural)]
pub enum StartOutcome {
    /// Spawn one poller carrying this generation.
    SpawnPoller { generation: u64 },
    /// A poller is already running: nothing to do.
    AlreadyRunning,
}

pub open spec fn poller_live(s: SchedulerState, generation: u64) -> bool {
    s.is_running && s.generation == generation
}

impl SchedulerState {
    /// A stopped scheduler.
    pub fn new() -> (r: SchedulerState)
        ensures
            !r.is_running,
            r.generation == 0,
    {
        SchedulerState { is_running: false, generation: 0 }
    }

    /// Starts the scheduler. Starting a running scheduler changes nothing
    /// and spawns nothing.
    pub fn start(&mut self) -> (r: StartOutcome)
        requires
            old(self).is_running || old(self).generation < u64::MAX,
        ensures
            *final(self) == started(*old(self)),
            r == start_outcome(*old(self)),
    {
        if self.is_running {
            return StartOutcome::AlreadyRunning;
        }
        self.is_running = true;
        self.generation = self.generation + 1;
        StartOutcome::SpawnPoller { generation: self.generation }
    }

    /// Stops the scheduler; its poller notices at its next tick.
    pub fn stop(&mut self)
        ensures
            !final(self).is_running,
            final(self).generation == old(self).generation,
    {
        self.is_running = false;
    }

    /// Asked by a poller at the top of each tick: whether to process the
    /// due items (true) or to exit (false).
    pub fn should_poll(&self, generation: u64) -> (r: bool)
        ensures
            r == poller_live(*self, generation),
    {
        self.is_running && self.generation == generation
    }
}

/// The state after a start.
pub open spec fn started(s: SchedulerState) -> SchedulerState {
    if s.is_running {
        s
    } else {
        SchedulerState { is_running: true, generation: (s.generation + 1) as u64 }
    }
}

/// What a start asks the caller to do.
pub open spec fn start_outcome(s: SchedulerState) -> StartOutcome {
    if s.is_running {
        StartOutcome::AlreadyRunning
    } else {
        StartOutcome::SpawnPoller { generation: (s.generation + 1) as u64 }
    }
}

/// Starting twice spawns at most one poller: the second start asks for
/// nothing and changes nothing, and the only poller that stays live is the
/// one of the current generation.
pub proof fn lemma_start_is_idempotent(s: SchedulerState, g: u64)
    requires
        s.is_running || s.generation < u64::MAX,
    ensures
        start_outcome(started(s)) == StartOutcome::AlreadyRunning,
        started(started(s)) == started(s),
        poller_live(started(started(s)), g) ==> g == started(s).generation,
        start_outcome(s) matches StartOutcome::SpawnPoller { generation } ==> poller_live(
            started(started(s)),
            generation,
        ),
{
}

pub open spec fn is_due_spec(item: ScheduledItem, now: int) -> bool {
    item.status == ItemStatus::Pending && item.scheduled_time <= now
}

/// An item is due when it is pending and its time has come.
pub fn is_due(item: &ScheduledItem, now: i64) -> (r: bool)
    ensures
        r == is_due_spec(*item, now as int),
{
    item.status == ItemStatus::Pending && item.scheduled_time <= now
}

/// The positions of the due items, in order.
pub fn select_due(items: &Vec<ScheduledItem>, now: i64) -> (r: Vec<usize>)
    ensures
        forall|k: int| 0 <= k < r@.len() ==> #[trigger] r@[k] < items@.len() && is_due_spec(
            items@[r@[k] as int],
            now as int,
        ),
        forall|k: int| 0 < k < r@.len() ==> r@[k - 1] < #[trigger] r@[k],
        forall|j: int|
            0 <= j < items@.len() && is_due_spec(#[trigger] items@[j], now as int) ==> r@.contains(
                j as usize,
            ),
{
    let mut out: Vec<usize> = Vec::new();
    let mut i: usize = 0;
    while i < items.len()
        invariant
            i <= items@.len(),
            forall|k: int| 0 <= k < out@.len() ==> #[trigger] out@[k] < i && is_due_spec(
                items@[out@[k] as int],
                now as int,
            ),
            forall|k: int| 0 < k < out@.len() ==> out@[k - 1] < #[trigger] out@[k],
            forall|j: int|
                0 <= j < i && is_due_spec(#[trigger] items@[j], now as int) ==> out@.contains(
                    j as usize,
                ),
        decreases items@.len() - i,
    {
        let ghost before = out@;
        if is_due(&items[i], now) {
            out.push(i);
            proof {
                assert(out@[out@.len() - 1] == i);
            }
        }
        proof {
            assert forall|j: int|
                0 <= j < i + 1 && is_due_spec(#[trigger] items@[j], now as int) implies out@.contains(
                j as usize,
            ) by {
                if j == i {
                    assert(out@[out@.len() - 1] == i);
                } else {
                    assert(before.contains(j as usize));
                    let k = choose|k: int| 0 <= k < before.len() && before[k] == j as usize;
                    assert(out@[k] == j as usize);
                }
            }
        }
        i = i + 1;
    }
    out
}

/// Position of the first active account, if there is one.
pub fn find_active_account(accounts: &Vec<EmailAccount>) -> (r: Option<usize>)
    ensures
        r is None <==> forall|j: int| 0 <= j < accounts@.len() ==> !(#[trigger] accounts@[j]).is_active,
        r matches Some(i) ==> i < accounts@.len() && accounts@[i as int].is_active && forall|j: int|
            0 <= j < i ==> !(#[trigger] accounts@[j]).is_active,
{
    let mut i: usize = 0;
    while i < accounts.len()
        invariant
            i <= accounts@.len(),
            forall|j: int| 0 <= j < i ==> !(#[trigger] accounts@[j]).is_active,
        decreases accounts@.len() - i,
    {
        if accounts[i].is_active {
            return Some(i);
        }
        i = i + 1;
    }
    None
}

/// Picks what one firing of `item` sends with: the owner's first active
/// account (refused when there is none) and the item's template (refused
/// when the item names none, or when `template` was not found for it).
pub fn resolve_firing<'a>(
    item: &ScheduledItem,
    accounts: &'a Vec<EmailAccount>,
    template: Option<&'a EmailTemplate>,
) -> (r: Result<(&'a EmailAccount, &'a EmailTemplate), FiringError>)
    ensures
        (forall|j: int| 0 <= j < accounts@.len() ==> !(#[trigger] accounts@[j]).is_active) ==> r
            == Err::<(&EmailAccount, &EmailTemplate), FiringError>(FiringError::NoActiveAccount),
        (exists|j: int| 0 <= j < accounts@.len() && (#[trigger] accounts@[j]).is_active) ==> {
            &&& item.template_id is None ==> r == Err::<(&EmailAccount, &EmailTemplate), FiringError>(
                FiringError::NoTemplate,
            )
            &&& (item.template_id is Some && template is None) ==> r == Err::<
                (&EmailAccount, &EmailTemplate),
                FiringError,
            >(FiringError::TemplateNotFound)
            &&& (item.template_id is Some && template is Some) ==> r is Ok
        },
        r matches Ok((a, t)) ==> a.is_active && template == Some(t) && exists|i: int|
            0 <= i < accounts@.len() && accounts@[i] == *a && forall|j: int|
                0 <= j < i ==> !(#[trigger] accounts@[j]).is_active,
{
    let i = match find_active_account(accounts) {
        Some(i) => i,
        None => {
            return Err(FiringError::NoActiveAccount);
        },
    };
    if item.template_id.is_none() {
        return Err(FiringError::NoTemplate);
    }
    match template {
        Some(t) => Ok((&accounts[i], t)),
        None => Err(FiringError::TemplateNotFound),
    }
}

/// The recipients of one firing: each address, with no variables of its own.
pub fn scheduled_recipients(item: &ScheduledItem) -> (r: Vec<RecipientData>)
    ensures
        r@.len() == item.recipient_list@.len(),
        forall|k: int|
            0 <= k < r@.len() ==> (#[trigger] r@[k]).email == item.recipient_list@[k]
                && r@[k].variables@.len() == 0,
{
    let mut out: Vec<RecipientData> = Vec::new();
    let mut i: usize = 0;
    while i < item.recipient_list.len()
        invariant
            i <= item.recipient_list@.len(),
            out@.len() == i,
            forall|k: int|
                0 <= k < i ==> (#[trigger] out@[k]).email == item.recipient_list@[k]
                    && out@[k].variables@.len() == 0,
        decreases item.recipient_list@.len() - i,
    {
        out.push(RecipientData { email: item.recipient_list[i].clone(), variables: Vec::new() });
        i = i + 1;
    }
    out
}

/// The subject of a template, or `No Subject` when it has none.
pub fn template_subject(t: &EmailTemplate) -> (r: String)
    ensures
        t.subject matches Some(s) ==> r@ == s@,
        t.subject is None ==> r@ == "No Subject"@,
{
    match &t.subject {
        Some(s) => s.clone(),
        None => "No Subject".to_string(),
    }
}

/// The body of a template, or `No Content` when it has none.
pub fn template_body(t: &EmailTemplate) -> (r: String)
    ensures
        t.body matches Some(s) ==> r@ == s@,
        t.body is None ==> r@ == "No Content"@,
{
    match &t.body {
        Some(s) => s.clone(),
        None => "No Content".to_string(),
    }
}

/// The log entry for one recipient of a scheduled firing.
pub fn firing_log_entry(
    item: &ScheduledItem,
    recipient: &str,
    subject: &str,
    outcome: Result<(), String>,
    at: i64,
) -> (r: EmailLogEntry)
    ensures
        r.user_id == item.user_id,
        r.recipient@ == recipient@,
        r.subject@ == subject@,
        r.campaign_id is None,
        r.sent_at == at,
        outcome is Ok ==> r.status == LogStatus::Sent && r.error_message is None,
        outcome matches Err(e) ==> (r.status == LogStatus::Failed && (r.error_message matches Some(
            m,
        ) && m@ == e@)),
{
    let (status, error_message) = match outcome {
        Ok(()) => (LogStatus::Sent, None),
        Err(e) => (LogStatus::Failed, Some(e)),
    };
    EmailLogEntry {
        user_id: item.user_id,
        recipient: recipient.to_string(),
        subject: subject.to_string(),
        status,
        error_message,
        campaign_id: None,
        sent_at: at,
    }
}

/// What a firing leaves: the fired item's terminal status and, after a
/// successful firing of a recurring item, the next item to insert.
pub struct FiringResult {
    pub status: ItemStatus,
    pub next: Option<NewScheduledItem>,
}

/// Settles one firing of `item`. A failed firing marks the item `Failed`
/// and nothing more. A successful one marks it `Sent`; if the item recurs
/// and its pattern gives a next time, a new pending item with the same
/// owner, template, recipients and pattern is due at that time. The fired
/// item's own time is never changed.
pub fn complete_firing(item: &ScheduledItem, outcome: &Result<(), FiringError>, now: i64) -> (r:
    FiringResult)
    requires
        match item.recurrence_pattern {
            Some(p) => preset_of(p@) is Some || now < LATEST_INSTANT,
            None => true,
        },
    ensures
        outcome is Err ==> r.status == ItemStatus::Failed && r.next is None,
        outcome is Ok ==> r.status == ItemStatus::Sent,
        item.recurrence_pattern is None ==> r.next is None,
        outcome is Ok ==> match item.recurrence_pattern {
            Some(p) => (r.next is Some <==> next_occurrence_of(
                p@,
                item.scheduled_time as int,
                now as int,
            ) is Ok),
            None => true,
        },
        r.next matches Some(n) ==> {
            &&& outcome is Ok
            &&& item.recurrence_pattern matches Some(p)
            &&& n.recurrence_pattern matches Some(q)
            &&& q@ == p@
            &&& n.user_id == item.user_id
            &&& n.template_id == item.template_id
            &&& n.recipient_list@ == item.recipient_list@
            &&& next_occurrence_of(p@, item.scheduled_time as int, now as int) == Ok::<
                int,
                RecurrenceError,
            >(n.scheduled_time as int)
        },
{
    if outcome.is_err() {
        return FiringResult { status: ItemStatus::Failed, next: None };
    }
    let next = match &item.recurrence_pattern {
        None => None,
        Some(p) => match calculate_next_occurrence(p.as_str(), item.scheduled_time, now) {
            Ok(t) => Some(
                NewScheduledItem {
                    user_id: item.user_id,
                    template_id: item.template_id,
                    recipient_list: item.recipient_list.clone(),
                    scheduled_time: t,
                    recurrence_pattern: Some(p.clone()),
                },
            ),
            Err(_) => None,
        },
    };
    FiringResult { status: ItemStatus::Sent, next }
}

} // verus!
