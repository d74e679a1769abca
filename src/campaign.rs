//! The batch campaign dispatcher, as a state machine that a caller drives
//! one recipient at a time, and the statistics derived from the send log.

use vstd::prelude::*;
use crate::models::RecipientData;

verus! {

#[derive(Clone, Copy, Debug, PartialEq, Eq, Structural)]
pub enum CampaignStatus {
    Draft,
    Sending,
    /// Every recipient was sent to.
    Completed,
    /// Every recipient was processed and at least one send failed.
    Partial,
}

#[derive(Clone, Copy, Debug, PartialEq, Eq, Structural)]
pub enum LogStatus {
    Sent,
    Failed,
}

/// One row of the append-only send log.
#[derive(Clone, Debug, PartialEq, Eq)]
pub struct EmailLogEntry {
    pub user_id: i32,
    pub recipient: String,
    pub subject: String,
    pub status: LogStatus,
    pub error_message: Option<String>,
    pub campaign_id: Option<i32>,
    /// Seconds since the Unix epoch.
    pub sent_at: i64,
}

#[derive(Clone, Copy, Debug, PartialEq, Eq, Structural)]
pub enum DispatchError {
    /// The recipient list is empty (a validation error).
    NoRecipients,
}

/// How many of `s` equal `x`.
pub open spec fn count_of(s: Seq<LogStatus>, x: LogStatus) -> nat
    decreases s.len(),
{
    if s.len() == 0 {
        0
    } else {
        count_of(s.drop_last(), x) + if s.last() == x {
            1nat
        } else {
            0nat
        }
    }
}

proof fn lemma_count_bounds(s: Seq<LogStatus>)
    ensures
        count_of(s, LogStatus::Sent) + count_of(s, LogStatus::Failed) == s.len(),
    decreases s.len(),
{
    if s.len() > 0 {
        lemma_count_bounds(s.drop_last());
    }
}

/// Refuses an empty recipient list before anything is created.
pub fn check_recipients(recipients: &Vec<RecipientData>) -> (r: Result<(), DispatchError>)
    ensures
        r is Err <==> recipients@.len() == 0,
        r is Err ==> r == Err::<(), DispatchError>(DispatchError::NoRecipients),
{
    if recipients.len() == 0 {
        Err(DispatchError::NoRecipients)
    } else {
        Ok(())
    }
}

/// One batch send in progress: the campaign's counters and the status of
/// each log entry written so far, in recipient order.
pub struct BatchDispatch {
    pub user_id: i32,
    pub campaign_id: i32,
    pub status: CampaignStatus,
    pub total_recipients: usize,
    /// Recipients processed so far.
    pub processed: usize,
    pub sent_count: usize,
    pub failed_count: usize,
    /// The status of each log entry written, in order.
    pub outcomes: Vec<LogStatus>,
}

impl BatchDispatch {
    pub open spec fn wf(&self) -> bool {
        &&& self.total_recipients > 0
        &&& self.processed <= self.total_recipients
        &&& self.outcomes@.len() == self.processed
        &&& self.sent_count == count_of(self.outcomes@, LogStatus::Sent)
        &&& self.failed_count == count_of(self.outcomes@, LogStatus::Failed)
        &&& self.processed < self.total_recipients ==> self.status == CampaignStatus::Sending
        &&& self.is_finished() ==> self.processed == self.total_recipients
        &&& self.status == CampaignStatus::Completed ==> self.failed_count == 0
        &&& self.status == CampaignStatus::Partial ==> self.failed_count > 0
        &&& (self.status == CampaignStatus::Sending || self.status == CampaignStatus::Completed
            || self.status == CampaignStatus::Partial)
    }

    pub open spec fn is_finished(&self) -> bool {
        self.status == CampaignStatus::Completed || self.status == CampaignStatus::Partial
    }

    /// Opens the dispatch of campaign `campaign_id` to `total_recipients`
    /// recipients: status `Sending`, nothing processed yet.
    pub fn start(user_id: i32, campaign_id: i32, total_recipients: usize) -> (r: Result<
        BatchDispatch,
        DispatchError,
    >)
        ensures
            r is Err <==> total_recipients == 0,
            r is Err ==> r == Err::<BatchDispatch, DispatchError>(DispatchError::NoRecipients),
            r matches Ok(d) ==> {
                &&& d.wf()
                &&& d.user_id == user_id
                &&& d.campaign_id == campaign_id
                &&& d.status == CampaignStatus::Sending
                &&& d.total_recipients == total_recipients
                &&& d.processed == 0
                &&& d.sent_count == 0
                &&& d.failed_count == 0
            },
    {
        if total_recipients == 0 {
            return Err(DispatchError::NoRecipients);
        }
        Ok(
            BatchDispatch {
                user_id,
                campaign_id,
                status: CampaignStatus::Sending,
                total_recipients,
                processed: 0,
                sent_count: 0,
                failed_count: 0,
                outcomes: Vec::new(),
            },
        )
    }

    /// Index of the next recipient to send to, if any remain.
    pub fn next_index(&self) -> (r: Option<usize>)
        requires
            self.wf(),
        ensures
            r is Some <==> self.processed < self.total_recipients,
            r matches Some(i) ==> i == self.processed,
    {
        if self.processed < self.total_recipients {
            Some(self.processed)
        } else {
            None
        }
    }

    /// Takes the outcome of the send to the current recipient and gives the
    /// log entry to write: `sent` and one more sent message on success,
    /// `failed` with the error text otherwise.
    pub fn record_outcome(
        &mut self,
        recipient: &str,
        subject: &str,
        outcome: Result<(), String>,
        at: i64,
    ) -> (entry: EmailLogEntry)
        requires
            old(self).wf(),
            old(self).processed < old(self).total_recipients,
        ensures
            final(self).wf(),
            final(self).user_id == old(self).user_id,
            final(self).campaign_id == old(self).campaign_id,
            final(self).total_recipients == old(self).total_recipients,
            final(self).status == old(self).status,
            final(self).processed == old(self).processed + 1,
            final(self).outcomes@ == old(self).outcomes@.push(entry.status),
            final(self).sent_count == old(self).sent_count + if outcome is Ok {
                1int
            } else {
                0int
            },
            final(self).failed_count == old(self).failed_count + if outcome is Ok {
                0int
            } else {
                1int
            },
            entry.user_id == old(self).user_id,
            entry.recipient@ == recipient@,
            entry.subject@ == subject@,
            entry.campaign_id == Some(old(self).campaign_id),
            entry.sent_at == at,
            outcome is Ok ==> entry.status == LogStatus::Sent && entry.error_message is None,
            outcome matches Err(e) ==> (entry.status == LogStatus::Failed && (entry.error_message
                matches Some(m) && m@ == e@)),
    {
        let ghost before = self.outcomes@;
        proof {
            lemma_count_bounds(before);
        }
        let (status, error_message) = match outcome {
            Ok(()) => {
                self.sent_count = self.sent_count + 1;
                (LogStatus::Sent, None)
            },
            Err(e) => {
                self.failed_count = self.failed_count + 1;
                (LogStatus::Failed, Some(e))
            },
        };
        self.outcomes.push(status);
        self.processed = self.processed + 1;
        proof {
            assert(self.outcomes@.drop_last() == before);
        }
        EmailLogEntry {
            user_id: self.user_id,
            recipient: recipient.to_string(),
            subject: subject.to_string(),
            status,
            error_message,
            campaign_id: Some(self.campaign_id),
            sent_at: at,
        }
    }

    /// Once every recipient is processed: `Completed` when no send failed,
    /// `Partial` otherwise.
    pub fn finish(&mut self)
        requires
            old(self).wf(),
            old(self).processed == old(self).total_recipients,
        ensures
            final(self).wf(),
            final(self).is_finished(),
            final(self).status == (if old(self).failed_count == 0 {
                CampaignStatus::Completed
            } else {
                CampaignStatus::Partial
            }),
            final(self).user_id == old(self).user_id,
            final(self).campaign_id == old(self).campaign_id,
            final(self).total_recipients == old(self).total_recipients,
            final(self).processed == old(self).processed,
            final(self).sent_count == old(self).sent_count,
            final(self).failed_count == old(self).failed_count,
            final(self).outcomes@ == old(self).outcomes@,
    {
        if self.failed_count == 0 {
            self.status = CampaignStatus::Completed;
        } else {
            self.status = CampaignStatus::Partial;
        }
    }
}

/// Once a dispatch over a non-empty recipient list is finished, its status
/// is `Completed` or `Partial`, and its sent count plus its failed log
/// entries make up the recipient total.
pub proof fn lemma_finished_dispatch_accounts_for_everyone(d: BatchDispatch)
    requires
        d.wf(),
        d.is_finished(),
    ensures
        d.status == CampaignStatus::Completed || d.status == CampaignStatus::Partial,
        d.sent_count + count_of(d.outcomes@, LogStatus::Failed) == d.total_recipients,
        d.status == CampaignStatus::Completed <==> count_of(d.outcomes@, LogStatus::Failed) == 0,
{
    lemma_count_bounds(d.outcomes@);
}

/// How many log entries of `user_id` for `campaign_id` have status `st`.
pub open spec fn logged_count(logs: Seq<EmailLogEntry>, user_id: i32, campaign_id: i32, st: LogStatus) -> nat
    decreases logs.len(),
{
    if logs.len() == 0 {
        0
    } else {
        let e = logs.last();
        logged_count(logs.drop_last(), user_id, campaign_id, st) + if e.user_id == user_id
            && e.campaign_id == Some(campaign_id) && e.status == st {
            1nat
        } else {
            0nat
        }
    }
}

proof fn lemma_logged_count_bound(logs: Seq<EmailLogEntry>, user_id: i32, campaign_id: i32)
    ensures
        logged_count(logs, user_id, campaign_id, LogStatus::Sent) + logged_count(
            logs,
            user_id,
            campaign_id,
            LogStatus::Failed,
        ) <= logs.len(),
    decreases logs.len(),
{
    if logs.len() > 0 {
        lemma_logged_count_bound(logs.drop_last(), user_id, campaign_id);
    }
}

/// A campaign's figures, recomputed from the send log.
#[derive(Clone, Copy, Debug, PartialEq, Eq, Structural)]
pub struct CampaignStats {
    pub campaign_id: i32,
    pub total_recipients: usize,
    pub sent_count: usize,
    pub failed_count: usize,
    /// Recipients with no log entry yet.
    pub pending_count: usize,
    pub status: CampaignStatus,
    /// When the campaign was created, in seconds since the Unix epoch.
    pub created_at: i64,
    /// When a finished campaign last changed (its completion); `None`
    /// while it is not finished.
    pub completed_at: Option<i64>,
}

/// Counts the campaign's log entries by status. The campaign's own counters
/// are not consulted: `total_recipients`, `status` and the times are only
/// carried over,
/// and the pending count is what the log does not yet account for.
pub fn get_campaign_stats(
    logs: &Vec<EmailLogEntry>,
    user_id: i32,
    campaign_id: i32,
    total_recipients: usize,
    status: CampaignStatus,
    created_at: i64,
    updated_at: i64,
) -> (r: CampaignStats)
    ensures
        r.campaign_id == campaign_id,
        r.total_recipients == total_recipients,
        r.status == status,
        r.created_at == created_at,
        r.completed_at == (if status == CampaignStatus::Completed || status
            == CampaignStatus::Partial {
            Some(updated_at)
        } else {
            None
        }),
        r.sent_count == logged_count(logs@, user_id, campaign_id, LogStatus::Sent),
        r.failed_count == logged_count(logs@, user_id, campaign_id, LogStatus::Failed),
        r.pending_count == if r.sent_count + r.failed_count <= total_recipients {
            total_recipients - r.sent_count - r.failed_count
        } else {
            0
        },
{
    let mut sent: usize = 0;
    let mut failed: usize = 0;
    let mut i: usize = 0;
    while i < logs.len()
        invariant
            i <= logs@.len(),
            sent == logged_count(logs@.subrange(0, i as int), user_id, campaign_id, LogStatus::Sent),
            failed == logged_count(logs@.subrange(0, i as int), user_id, campaign_id, LogStatus::Failed),
        decreases logs@.len() - i,
    {
        let ghost prefix = logs@.subrange(0, i + 1);
        proof {
            assert(prefix.drop_last() == logs@.subrange(0, i as int));
            lemma_logged_count_bound(logs@.subrange(0, i as int), user_id, campaign_id);
        }
        let e = &logs[i];
        if e.user_id == user_id && e.campaign_id == Some(campaign_id) {
            match e.status {
                LogStatus::Sent => {
                    sent = sent + 1;
                },
                LogStatus::Failed => {
                    failed = failed + 1;
                },
            }
        }
        i = i + 1;
    }
    proof {
        assert(logs@.subrange(0, logs@.len() as int) == logs@);
        lemma_logged_count_bound(logs@, user_id, campaign_id);
    }
    let pending = if sent + failed <= total_recipients {
        total_recipients - sent - failed
    } else {
        0
    };
    CampaignStats {
        campaign_id,
        total_recipients,
        sent_count: sent,
        failed_count: failed,
        pending_count: pending,
        status,
        created_at,
        completed_at: match status {
            CampaignStatus::Completed | CampaignStatus::Partial => Some(updated_at),
            _ => None,
        },
    }
}

} // verus!
