//! How shares, queues and jobs are stored in a database: the columns by which
//! they are found, beside the stored value itself.
use vstd::prelude::*;
use vstd::string::*;

use crate::domain::job::{PrintJob, PrintJobState};
use crate::domain::queue_binding::{QueueBindingState, RemoteQueueBinding};
use crate::domain::share::{PrinterShare, ShareState};
use crate::domain::TimestampMs;
use crate::text::{contains, has_infix, has_prefix, starts_with};

verus! {

impl ShareState {
    /// How the state is stored.
    pub open spec fn stored(self) -> Seq<char> {
        match self {
            ShareState::Published => "published"@,
            ShareState::Suspended => "suspended"@,
            ShareState::Removed => "removed"@,
        }
    }

    /// How the state is stored.
    pub fn token(self) -> (r: &'static str)
        ensures
            r@ == self.stored(),
    {
        match self {
            ShareState::Published => "published",
            ShareState::Suspended => "suspended",
            ShareState::Removed => "removed",
        }
    }
}

impl QueueBindingState {
    /// How the state is stored.
    pub open spec fn stored(self) -> Seq<char> {
        match self {
            QueueBindingState::Installing => "installing"@,
            QueueBindingState::Ready => "ready"@,
            QueueBindingState::SourceOffline => "sourceOffline"@,
            QueueBindingState::Removing => "removing"@,
            QueueBindingState::Failed => "failed"@,
        }
    }

    /// How the state is stored.
    pub fn token(self) -> (r: &'static str)
        ensures
            r@ == self.stored(),
    {
        match self {
            QueueBindingState::Installing => "installing",
            QueueBindingState::Ready => "ready",
            QueueBindingState::SourceOffline => "sourceOffline",
            QueueBindingState::Removing => "removing",
            QueueBindingState::Failed => "failed",
        }
    }
}

impl PrintJobState {
    /// How the state is stored.
    pub open spec fn stored(self) -> Seq<char> {
        match self {
            PrintJobState::Offered => "offered"@,
            PrintJobState::Receiving => "receiving"@,
            PrintJobState::Validating => "validating"@,
            PrintJobState::Ready => "ready"@,
            PrintJobState::Submitting => "submitting"@,
            PrintJobState::Queued => "queued"@,
            PrintJobState::Printing => "printing"@,
            PrintJobState::Completed => "completed"@,
            PrintJobState::Held => "held"@,
            PrintJobState::Cancelled => "cancelled"@,
            PrintJobState::Failed => "failed"@,
            PrintJobState::Ambiguous => "ambiguous"@,
        }
    }

    /// How the state is stored.
    pub fn token(self) -> (r: &'static str)
        ensures
            r@ == self.stored(),
    {
        match self {
            PrintJobState::Offered => "offered",
            PrintJobState::Receiving => "receiving",
            PrintJobState::Validating => "validating",
            PrintJobState::Ready => "ready",
            PrintJobState::Submitting => "submitting",
            PrintJobState::Queued => "queued",
            PrintJobState::Printing => "printing",
            PrintJobState::Completed => "completed",
            PrintJobState::Held => "held",
            PrintJobState::Cancelled => "cancelled",
            PrintJobState::Failed => "failed",
            PrintJobState::Ambiguous => "ambiguous",
        }
    }
}

/// The columns of a share.
pub struct ShareRow {
    pub id: String,
    pub local_printer_id: String,
    pub state: &'static str,
    pub updated_at_ms: TimestampMs,
}

/// The columns of a share.
pub fn share_row(share: &PrinterShare) -> (r: ShareRow)
    ensures
        r.id@ == share@.id,
        r.local_printer_id@ == share@.local_printer_id,
        r.state@ == share@.state.stored(),
        r.updated_at_ms == share@.updated_at_ms,
{
    ShareRow {
        id: share.id.to_string(),
        local_printer_id: share.local_printer_id.to_string(),
        state: share.state.token(),
        updated_at_ms: share.updated_at_ms,
    }
}

/// The columns of a queue.
pub struct BindingRow {
    pub id: String,
    pub remote_device_id: String,
    pub printer_share_id: String,
    pub state: &'static str,
    pub updated_at_ms: TimestampMs,
}

/// The columns of a queue.
pub fn binding_row(binding: &RemoteQueueBinding) -> (r: BindingRow)
    ensures
        r.id@ == binding@.id,
        r.remote_device_id@ == binding@.remote_device_id,
        r.printer_share_id@ == binding@.printer_share_id,
        r.state@ == binding@.state.stored(),
        r.updated_at_ms == binding@.updated_at_ms,
{
    BindingRow {
        id: binding.id.to_string(),
        remote_device_id: binding.remote_device_id.to_string(),
        printer_share_id: binding.printer_share_id.to_string(),
        state: binding.state.token(),
        updated_at_ms: binding.updated_at_ms,
    }
}

/// The columns of a job.
pub struct JobRow {
    pub id: String,
    pub client_job_id: String,
    pub source_device_id: String,
    pub printer_share_id: String,
    pub state: &'static str,
    pub updated_at_ms: TimestampMs,
}

/// The columns of a job.
pub fn job_row(job: &PrintJob) -> (r: JobRow)
    ensures
        r.id@ == job@.id,
        r.client_job_id@ == job@.client_job_id,
        r.source_device_id@ == job@.source_device_id,
        r.printer_share_id@ == job@.printer_share_id,
        r.state@ == job@.state.stored(),
        r.updated_at_ms == job@.updated_at_ms,
{
    JobRow {
        id: job.id.to_string(),
        client_job_id: job.client_job_id.to_string(),
        source_device_id: job.source_device_id.to_string(),
        printer_share_id: job.printer_share_id.to_string(),
        state: job.state.token(),
        updated_at_ms: job.updated_at_ms,
    }
}

/// Whether a database lives only as long as its connection, so that there
/// must be no second one.
pub fn needs_single_connection(url: &str) -> (r: bool)
    ensures
        r == has_prefix(url@, "sqlite::memory:"@),
{
    starts_with(url, "sqlite::memory:")
}

/// Whether a table of jobs was made when the names that clients give had to
/// be unique among all devices, and not only for each.
pub fn needs_client_scope_migration(schema: &str) -> (r: bool)
    ensures
        r == has_infix(schema@, "client_job_id TEXT NOT NULL UNIQUE"@),
{
    contains(schema, "client_job_id TEXT NOT NULL UNIQUE")
}

/// How many jobs are listed, when `limit` are asked for.
pub open spec fn listed_at_most(limit: usize) -> int {
    if limit < 100 {
        limit as int
    } else {
        100
    }
}

/// How many jobs are listed, when `limit` are asked for.
pub fn recent_limit(limit: usize) -> (r: i64)
    ensures
        r == listed_at_most(limit),
{
    if limit < 100 {
        limit as i64
    } else {
        100
    }
}

/// The states in which a job has ended are those that are stored as completed,
/// cancelled or failed.
pub proof fn law_stored_states_tell_ended_jobs(state: PrintJobState)
    ensures
        state.is_terminal() <==> state.stored() == "completed"@ || state.stored() == "cancelled"@
            || state.stored() == "failed"@,
{
    lemma_job_tokens();
    assert(PrintJobState::Completed.stored() == "completed"@);
    assert(PrintJobState::Cancelled.stored() == "cancelled"@);
    assert(PrintJobState::Failed.stored() == "failed"@);
}

proof fn lemma_job_tokens()
    ensures
        forall|a: PrintJobState, b: PrintJobState|
            #![trigger a.stored(), b.stored()]
            a.stored() == b.stored() ==> a == b,
{
    reveal_strlit("offered");
    reveal_strlit("receiving");
    reveal_strlit("validating");
    reveal_strlit("ready");
    reveal_strlit("submitting");
    reveal_strlit("queued");
    reveal_strlit("printing");
    reveal_strlit("completed");
    reveal_strlit("held");
    reveal_strlit("cancelled");
    reveal_strlit("failed");
    reveal_strlit("ambiguous");
    assert forall|a: PrintJobState, b: PrintJobState|
        #![trigger a.stored(), b.stored()]
        a.stored() == b.stored() implies a == b by {
        let x = a.stored();
        let y = b.stored();
        assert(x[0] == y[0] && x[1] == y[1] && x[2] == y[2] && x[3] == y[3] && x.len() == y.len());
    }
}

/// Different states are stored differently.
pub proof fn law_stored_states_differ(a: PrintJobState, b: PrintJobState)
    requires
        a.stored() == b.stored(),
    ensures
        a == b,
{
    lemma_job_tokens();
}

} // verus!
