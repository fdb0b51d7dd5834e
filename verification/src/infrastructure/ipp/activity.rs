//! The list of jobs that were sent to other devices.
use vstd::prelude::*;
use vstd::string::*;

use crate::domain::id::{valid_id, PrintJobId};
use crate::domain::job::PrintJobState;
use crate::domain::TimestampMs;
use crate::infrastructure::ipp::jobs::{
    reported, shown, IppBridge, IppJobBindingView, JobEntry,
    JobEntryView,
};
use crate::infrastructure::quic::printers::{
    find_remote, found_remote, RemotePrinter, RemotePrinterView,
};
use crate::infrastructure::quic::replies::{RemotePrintJob, RemotePrintJobView};
use crate::model::{opt, views};

verus! {

/// How many jobs are asked about for one list.
pub const MAX_REFRESHES: usize = 6;

/// How long to wait for an answer about a job, in milliseconds.
pub const REFRESH_TIMEOUT_MS: u64 = 500;

/// A job that was sent to another device.
#[derive(Debug, PartialEq, Eq)]
pub struct OutgoingPrintJob {
    pub local_job_id: u32,
    pub remote_device_id: String,
    pub remote_device_name: String,
    pub printer_share_id: String,
    pub printer_name: String,
    pub document_name: String,
    pub remote_job_id: String,
    pub state: Option<PrintJobState>,
    pub failure_message: Option<String>,
    pub created_at_ms: TimestampMs,
    pub updated_at_ms: TimestampMs,
    pub source_available: bool,
}

pub struct OutgoingPrintJobView {
    pub local_job_id: u32,
    pub remote_device_id: Seq<char>,
    pub remote_device_name: Seq<char>,
    pub printer_share_id: Seq<char>,
    pub printer_name: Seq<char>,
    pub document_name: Seq<char>,
    pub remote_job_id: Seq<char>,
    pub state: Option<PrintJobState>,
    pub failure_message: Option<Seq<char>>,
    pub created_at_ms: TimestampMs,
    pub updated_at_ms: TimestampMs,
    pub source_available: bool,
}

impl View for OutgoingPrintJob {
    type V = OutgoingPrintJobView;

    open spec fn view(&self) -> OutgoingPrintJobView {
        OutgoingPrintJobView {
            local_job_id: self.local_job_id,
            remote_device_id: self.remote_device_id@,
            remote_device_name: self.remote_device_name@,
            printer_share_id: self.printer_share_id@,
            printer_name: self.printer_name@,
            document_name: self.document_name@,
            remote_job_id: self.remote_job_id@,
            state: self.state,
            failure_message: opt(self.failure_message),
            created_at_ms: self.created_at_ms,
            updated_at_ms: self.updated_at_ms,
            source_available: self.source_available,
        }
    }
}

/// `text`, or `other` where it is empty.
pub open spec fn or_else(text: Seq<char>, other: Seq<char>) -> Seq<char> {
    if text.len() == 0 {
        other
    } else {
        text
    }
}

/// A job as it is listed: names that were not recorded are taken from the
/// printer, if it is known.
pub open spec fn outgoing(
    entry: JobEntryView,
    remote: Option<RemotePrinterView>,
) -> OutgoingPrintJobView {
    let binding = entry.binding;
    OutgoingPrintJobView {
        local_job_id: entry.id,
        remote_device_id: binding.remote_device_id,
        remote_device_name: or_else(
            binding.remote_device_name,
            match remote {
                Some(remote) => remote.printer.source_device_name,
                None => binding.remote_device_id,
            },
        ),
        printer_share_id: binding.printer_share_id,
        printer_name: or_else(
            binding.printer_name,
            match remote {
                Some(remote) => remote.printer.display_name,
                None => "LAN printer"@,
            },
        ),
        document_name: or_else(binding.document_name, "Print job"@),
        remote_job_id: binding.remote_job_id,
        state: binding.state,
        failure_message: binding.failure_message,
        created_at_ms: binding.created_at_ms,
        updated_at_ms: binding.updated_at_ms,
        source_available: remote is Some,
    }
}

fn first_of(text: &String, other: &str) -> (r: String)
    ensures
        r@ == or_else(text@, other@),
{
    if text.as_str().is_empty() {
        proof {
            if text@.len() > 0 {
                vstd::utf8::encode_utf8_first_scalar(text@);
            }
        }
        other.to_string()
    } else {
        text.clone()
    }
}

fn outgoing_job(entry: &JobEntry, remote: &Option<RemotePrinter>) -> (r: OutgoingPrintJob)
    ensures
        r@ == outgoing(entry@, opt(*remote)),
{
    let binding = &entry.binding;
    let (device_name, printer_name) = match remote {
        Some(remote) => (
            remote.printer.source_device_name.as_str(),
            remote.printer.display_name.as_str(),
        ),
        None => (binding.remote_device_id.as_str(), "LAN printer"),
    };
    OutgoingPrintJob {
        local_job_id: entry.id,
        remote_device_id: binding.remote_device_id.clone(),
        remote_device_name: first_of(&binding.remote_device_name, device_name),
        printer_share_id: binding.printer_share_id.clone(),
        printer_name: first_of(&binding.printer_name, printer_name),
        document_name: first_of(&binding.document_name, "Print job"),
        remote_job_id: binding.remote_job_id.clone(),
        state: binding.state,
        failure_message: match &binding.failure_message {
            Some(message) => Some(message.clone()),
            None => None,
        },
        created_at_ms: binding.created_at_ms,
        updated_at_ms: binding.updated_at_ms,
        source_available: remote.is_some(),
    }
}

/// What a list is made from: the printers that are known, and whether the
/// devices are asked about jobs that have not ended.
pub struct ListContext {
    pub remotes: Vec<RemotePrinter>,
    pub refresh_active: bool,
}

pub struct ListContextView {
    pub remotes: Seq<RemotePrinterView>,
    pub refresh_active: bool,
}

impl View for ListContext {
    type V = ListContextView;

    open spec fn view(&self) -> ListContextView {
        ListContextView { remotes: views(self.remotes@), refresh_active: self.refresh_active }
    }
}

impl ListContextView {
    /// The printer that a job went to, if it is known.
    pub open spec fn remote_of(self, binding: IppJobBindingView) -> Option<RemotePrinterView> {
        found_remote(self.remotes, binding.remote_device_id, binding.printer_share_id)
    }

    /// Whether the device is to be asked about a job: not about one that is
    /// known to have ended.
    pub open spec fn wants(self, binding: IppJobBindingView) -> bool {
        self.refresh_active && match binding.state {
            Some(state) => !state.is_terminal(),
            None => true,
        }
    }
}

/// What a list asks for.
pub enum ListAction<'a> {
    /// How the job fares; no answer in time is an answer too.
    Query(&'a RemotePrinter, &'a PrintJobId),
    /// Take a report on a local job.
    Record(u32, PrintJobState, &'a Option<String>),
    Finished,
}

pub enum ListActionView {
    Query(RemotePrinterView, Seq<char>),
    Record(u32, PrintJobState, Option<Seq<char>>),
    Finished,
}

impl<'a> View for ListAction<'a> {
    type V = ListActionView;

    open spec fn view(&self) -> ListActionView {
        match *self {
            ListAction::Query(remote, id) => ListActionView::Query(remote@, id@),
            ListAction::Record(id, state, message) => ListActionView::Record(
                id,
                state,
                opt(*message),
            ),
            ListAction::Finished => ListActionView::Finished,
        }
    }
}

/// An answer to a [`ListAction`].
pub enum ListReply {
    /// What the device says, if it says something in time.
    Job(Option<RemotePrintJob>),
    Recorded,
}

pub enum ListReplyView {
    Job(Option<RemotePrintJobView>),
    Recorded,
}

impl View for ListReply {
    type V = ListReplyView;

    open spec fn view(&self) -> ListReplyView {
        match *self {
            ListReply::Job(job) => ListReplyView::Job(opt(job)),
            ListReply::Recorded => ListReplyView::Recorded,
        }
    }
}

/// Where a list stands.
pub enum ListFlow {
    /// The device is asked about `entry`; `pending` comes next.
    Asking {
        pending: Vec<JobEntry>,
        entry: JobEntry,
        remote: RemotePrinter,
        job_id: PrintJobId,
        done: Vec<OutgoingPrintJob>,
        attempts: usize,
    },
    /// What the device said of `entry` is recorded.
    Recording {
        pending: Vec<JobEntry>,
        entry: JobEntry,
        remote: RemotePrinter,
        state: PrintJobState,
        failure_message: Option<String>,
        done: Vec<OutgoingPrintJob>,
        attempts: usize,
    },
    Done(Vec<OutgoingPrintJob>),
}

pub enum ListFlowView {
    Asking {
        pending: Seq<JobEntryView>,
        entry: JobEntryView,
        remote: RemotePrinterView,
        job_id: Seq<char>,
        done: Seq<OutgoingPrintJobView>,
        attempts: usize,
    },
    Recording {
        pending: Seq<JobEntryView>,
        entry: JobEntryView,
        remote: RemotePrinterView,
        state: PrintJobState,
        failure_message: Option<Seq<char>>,
        done: Seq<OutgoingPrintJobView>,
        attempts: usize,
    },
    Done(Seq<OutgoingPrintJobView>),
}

impl View for ListFlow {
    type V = ListFlowView;

    open spec fn view(&self) -> ListFlowView {
        match *self {
            ListFlow::Asking { pending, entry, remote, job_id, done, attempts } => {
                ListFlowView::Asking {
                    pending: views(pending@),
                    entry: entry@,
                    remote: remote@,
                    job_id: job_id@,
                    done: views(done@),
                    attempts,
                }
            },
            ListFlow::Recording {
                pending,
                entry,
                remote,
                state,
                failure_message,
                done,
                attempts,
            } => ListFlowView::Recording {
                pending: views(pending@),
                entry: entry@,
                remote: remote@,
                state,
                failure_message: opt(failure_message),
                done: views(done@),
                attempts,
            },
            ListFlow::Done(done) => ListFlowView::Done(views(done@)),
        }
    }
}

impl ListFlowView {
    /// The flow that goes on with the jobs in `pending`, after `attempts`
    /// jobs have been asked about.
    pub open spec fn proceed(
        context: ListContextView,
        pending: Seq<JobEntryView>,
        done: Seq<OutgoingPrintJobView>,
        attempts: usize,
    ) -> Self
        decreases pending.len(),
    {
        if pending.len() == 0 {
            ListFlowView::Done(done)
        } else {
            let entry = pending[0];
            let rest = pending.drop_first();
            let remote = context.remote_of(entry.binding);
            if context.wants(entry.binding) && attempts < MAX_REFRESHES {
                match remote {
                    Some(printer) if valid_id(entry.binding.remote_job_id) => ListFlowView::Asking {
                        pending: rest,
                        entry,
                        remote: printer,
                        job_id: entry.binding.remote_job_id,
                        done,
                        attempts: (attempts + 1) as usize,
                    },
                    _ => ListFlowView::proceed(
                        context,
                        rest,
                        done.push(outgoing(entry, remote)),
                        (attempts + 1) as usize,
                    ),
                }
            } else {
                ListFlowView::proceed(context, rest, done.push(outgoing(entry, remote)), attempts)
            }
        }
    }

    /// What the list asks for.
    pub open spec fn action(self) -> ListActionView {
        match self {
            ListFlowView::Asking { remote, job_id, .. } => ListActionView::Query(remote, job_id),
            ListFlowView::Recording { entry, state, failure_message, .. } => {
                ListActionView::Record(entry.id, state, failure_message)
            },
            ListFlowView::Done(_) => ListActionView::Finished,
        }
    }

    /// The flow after `reply`. An answer to another question changes nothing.
    pub open spec fn resumed(
        self,
        context: ListContextView,
        reply: ListReplyView,
        now_ms: TimestampMs,
    ) -> Self {
        match (self, reply) {
            (
                ListFlowView::Asking { pending, entry, remote, job_id, done, attempts },
                ListReplyView::Job(None),
            ) => ListFlowView::proceed(
                context,
                pending,
                done.push(outgoing(entry, Some(remote))),
                attempts,
            ),
            (
                ListFlowView::Asking { pending, entry, remote, job_id, done, attempts },
                ListReplyView::Job(Some(job)),
            ) => ListFlowView::Recording {
                pending,
                entry: JobEntryView {
                    id: entry.id,
                    binding: reported(entry.binding, job.state, job.failure_message, now_ms),
                },
                remote,
                state: job.state,
                failure_message: job.failure_message,
                done,
                attempts,
            },
            (
                ListFlowView::Recording {
                    pending,
                    entry,
                    remote,
                    state,
                    failure_message,
                    done,
                    attempts,
                },
                ListReplyView::Recorded,
            ) => ListFlowView::proceed(
                context,
                pending,
                done.push(outgoing(entry, Some(remote))),
                attempts,
            ),
            _ => self,
        }
    }
}

fn wants(refresh_active: bool, state: &Option<PrintJobState>) -> (r: bool)
    ensures
        r == (refresh_active && match *state {
            Some(state) => !state.is_terminal(),
            None => true,
        }),
{
    refresh_active && match state {
        Some(state) => !state.terminal(),
        None => true,
    }
}

fn proceed(
    context: &ListContext,
    mut pending: Vec<JobEntry>,
    mut done: Vec<OutgoingPrintJob>,
    attempts: usize,
) -> (r: ListFlow)
    ensures
        r@ == ListFlowView::proceed(context@, views(pending@), views(done@), attempts),
    decreases pending@.len(),
{
    if pending.len() == 0 {
        return ListFlow::Done(done);
    }
    let ghost before = pending@;
    let entry = pending.remove(0);
    assert(views(pending@) =~= views(before).drop_first());
    assert(views(before)[0] == entry@);
    let remote = find_remote(
        &context.remotes,
        entry.binding.remote_device_id.as_str(),
        entry.binding.printer_share_id.as_str(),
    );
    let ghost past = views(done@);
    if wants(context.refresh_active, &entry.binding.state) && attempts < MAX_REFRESHES {
        let parsed = PrintJobId::parse(entry.binding.remote_job_id.as_str());
        match (remote, parsed) {
            (Some(remote), Ok(job_id)) => ListFlow::Asking {
                pending,
                entry,
                remote,
                job_id,
                done,
                attempts: attempts + 1,
            },
            (remote, _) => {
                let job = outgoing_job(&entry, &remote);
                let ghost listed = job@;
                done.push(job);
                assert(views(done@) =~= past.push(listed));
                proceed(context, pending, done, attempts + 1)
            },
        }
    } else {
        let job = outgoing_job(&entry, &remote);
        let ghost listed = job@;
        done.push(job);
        assert(views(done@) =~= past.push(listed));
        proceed(context, pending, done, attempts)
    }
}

fn proceed_with(
    context: &ListContext,
    pending: Vec<JobEntry>,
    entry: &JobEntry,
    remote: RemotePrinter,
    mut done: Vec<OutgoingPrintJob>,
    attempts: usize,
) -> (r: ListFlow)
    ensures
        r@ == ListFlowView::proceed(
            context@,
            views(pending@),
            views(done@).push(outgoing(entry@, Some(remote@))),
            attempts,
        ),
{
    let ghost past = views(done@);
    let some = Some(remote);
    let job = outgoing_job(entry, &some);
    let ghost listed = job@;
    done.push(job);
    assert(views(done@) =~= past.push(listed));
    proceed(context, pending, done, attempts)
}

impl ListFlow {
    /// What the list asks for.
    pub fn action(&self) -> (r: ListAction<'_>)
        ensures
            r@ == self@.action(),
    {
        match self {
            ListFlow::Asking { remote, job_id, .. } => ListAction::Query(remote, job_id),
            ListFlow::Recording { entry, state, failure_message, .. } => ListAction::Record(
                entry.id,
                *state,
                failure_message,
            ),
            ListFlow::Done(_) => ListAction::Finished,
        }
    }

    /// Takes an answer and moves on.
    pub fn resume(self, context: &ListContext, reply: ListReply, now_ms: TimestampMs) -> (r: Self)
        ensures
            r@ == self@.resumed(context@, reply@, now_ms),
    {
        match (self, reply) {
            (
                ListFlow::Asking { pending, entry, remote, job_id: _, done, attempts },
                ListReply::Job(answer),
            ) => match answer {
                None => proceed_with(context, pending, &entry, remote, done, attempts),
                Some(job) => {
                    let mut binding = entry.binding.clone();
                    binding.state = Some(job.state);
                    binding.failure_message = match &job.failure_message {
                        Some(message) => Some(message.clone()),
                        None => None,
                    };
                    binding.updated_at_ms = now_ms;
                    ListFlow::Recording {
                        pending,
                        entry: JobEntry { id: entry.id, binding },
                        remote,
                        state: job.state,
                        failure_message: job.failure_message,
                        done,
                        attempts,
                    }
                },
            },
            (
                ListFlow::Recording {
                    pending,
                    entry,
                    remote,
                    state: _,
                    failure_message: _,
                    done,
                    attempts,
                },
                ListReply::Recorded,
            ) => proceed_with(context, pending, &entry, remote, done, attempts),
            (other, _) => other,
        }
    }
}

impl IppBridge {
    /// Starts to list the latest jobs, at most `limit`.
    pub fn list_jobs(&self, context: &ListContext, limit: usize) -> (r: ListFlow)
        requires
            self.wf(),
        ensures
            r@ == ListFlowView::proceed(context@, shown(self@.jobs, limit), seq![], 0),
    {
        let done: Vec<OutgoingPrintJob> = Vec::new();
        assert(views(done@) =~= seq![]);
        proceed(context, self.latest(limit), done, 0)
    }
}

impl ListFlowView {
    /// The numbers of the jobs that are listed or will be, in order.
    pub open spec fn numbers(self) -> Seq<u32> {
        match self {
            ListFlowView::Asking { pending, entry, done, .. } => listed_numbers(done).push(
                entry.id,
            ) + entry_numbers(pending),
            ListFlowView::Recording { pending, entry, done, .. } => listed_numbers(done).push(
                entry.id,
            ) + entry_numbers(pending),
            ListFlowView::Done(done) => listed_numbers(done),
        }
    }

    /// How many jobs have been asked about.
    pub open spec fn asked(self) -> usize {
        match self {
            ListFlowView::Asking { attempts, .. } => attempts,
            ListFlowView::Recording { attempts, .. } => attempts,
            ListFlowView::Done(_) => 0,
        }
    }
}

/// The numbers of listed jobs.
pub open spec fn listed_numbers(jobs: Seq<OutgoingPrintJobView>) -> Seq<u32> {
    jobs.map_values(|job: OutgoingPrintJobView| job.local_job_id)
}

/// The numbers of jobs.
pub open spec fn entry_numbers(jobs: Seq<JobEntryView>) -> Seq<u32> {
    jobs.map_values(|e: JobEntryView| e.id)
}

proof fn lemma_proceed_numbers(
    context: ListContextView,
    pending: Seq<JobEntryView>,
    done: Seq<OutgoingPrintJobView>,
    attempts: usize,
)
    requires
        attempts <= MAX_REFRESHES,
    ensures
        ListFlowView::proceed(context, pending, done, attempts).numbers() == listed_numbers(done)
            + entry_numbers(pending),
        ListFlowView::proceed(context, pending, done, attempts).asked() <= MAX_REFRESHES,
    decreases pending.len(),
{
    if pending.len() == 0 {
        assert(listed_numbers(done) + entry_numbers(pending) =~= listed_numbers(done));
    } else {
        let entry = pending[0];
        let rest = pending.drop_first();
        let remote = context.remote_of(entry.binding);
        let more = done.push(outgoing(entry, remote));
        let all = listed_numbers(done) + entry_numbers(pending);
        assert(listed_numbers(more) + entry_numbers(rest) =~= all);
        assert(listed_numbers(done).push(entry.id) + entry_numbers(rest) =~= all);
        lemma_proceed_numbers(context, rest, more, attempts);
        if attempts < MAX_REFRESHES {
            lemma_proceed_numbers(context, rest, more, (attempts + 1) as usize);
        }
    }
}

/// Whatever the devices answer, every job that is to be shown is listed, once
/// and in its place, and no more than a few devices are asked.
pub proof fn law_list_shows_every_job(
    context: ListContextView,
    jobs: Seq<JobEntryView>,
    flow: ListFlowView,
    reply: ListReplyView,
    now_ms: TimestampMs,
)
    requires
        flow.asked() <= MAX_REFRESHES,
    ensures
        ListFlowView::proceed(context, jobs, seq![], 0).numbers() == entry_numbers(jobs),
        ListFlowView::proceed(context, jobs, seq![], 0).asked() <= MAX_REFRESHES,
        flow.resumed(context, reply, now_ms).numbers() == flow.numbers(),
        flow.resumed(context, reply, now_ms).asked() <= MAX_REFRESHES,
{
    lemma_proceed_numbers(context, jobs, seq![], 0);
    assert(listed_numbers(seq![]) + entry_numbers(jobs) =~= entry_numbers(jobs));
    match flow {
        ListFlowView::Asking { pending, entry, remote, job_id, done, attempts } => {
            let more = done.push(outgoing(entry, Some(remote)));
            assert(listed_numbers(more) =~= listed_numbers(done).push(entry.id));
            lemma_proceed_numbers(context, pending, more, attempts);
        },
        ListFlowView::Recording { pending, entry, remote, state, failure_message, done, attempts } => {
            let more = done.push(outgoing(entry, Some(remote)));
            assert(listed_numbers(more) =~= listed_numbers(done).push(entry.id));
            lemma_proceed_numbers(context, pending, more, attempts);
        },
        ListFlowView::Done(_) => {},
    }
}

} // verus!
