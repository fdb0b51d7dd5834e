//! The operations on a single job, step by step.
use vstd::prelude::*;
use vstd::string::*;

use crate::application::job_service::{
    inspectable, prepare, report, OfferRequest, OfferRequestView, PreparationStep,
    MAX_ACTIVE_JOBS_PER_DEVICE,
};
use crate::application::ports::NativeJobStatus;
use crate::domain::id::{
    ClientJobId, DeviceId, LocalPrinterId, NativeJobId, PrintJobId, PrinterShareId,
};
use crate::domain::job::{offered_job, PrintJob, PrintJobState, PrintJobView};
use crate::domain::share::{PrinterShare, PrinterShareView, ShareState};
use crate::domain::TimestampMs;
use crate::error::{listed, optional, outcome, plain, PrintError, PrintErrorView, PrintResult};
use crate::model::opt;
use crate::unique::{is_random_text, lemma_random_text_exists};

verus! {

/// What a flow asks for.
pub enum JobAction<'a> {
    /// The job that a device has offered under a name of its own.
    FindClientJob(&'a DeviceId, &'a ClientJobId),
    /// All jobs that have not ended.
    ListActive,
    FindJob(&'a PrintJobId),
    FindShare(&'a PrinterShareId),
    /// Store the job and announce its state.
    Save(&'a PrintJob),
    /// Hand the job's document to the printer.
    Submit(&'a LocalPrinterId, &'a PrintJob),
    QueryNative(&'a NativeJobId),
    CancelNative(&'a NativeJobId),
    /// Nothing: the flow has ended.
    Finished,
}

pub enum JobActionView {
    FindClientJob(Seq<char>, Seq<char>),
    ListActive,
    FindJob(Seq<char>),
    FindShare(Seq<char>),
    Save(PrintJobView),
    Submit(Seq<char>, PrintJobView),
    QueryNative(Seq<char>),
    CancelNative(Seq<char>),
    Finished,
}

impl<'a> View for JobAction<'a> {
    type V = JobActionView;

    open spec fn view(&self) -> JobActionView {
        match *self {
            JobAction::FindClientJob(device, id) => JobActionView::FindClientJob(device@, id@),
            JobAction::ListActive => JobActionView::ListActive,
            JobAction::FindJob(id) => JobActionView::FindJob(id@),
            JobAction::FindShare(id) => JobActionView::FindShare(id@),
            JobAction::Save(job) => JobActionView::Save(job@),
            JobAction::Submit(printer, job) => JobActionView::Submit(printer@, job@),
            JobAction::QueryNative(id) => JobActionView::QueryNative(id@),
            JobAction::CancelNative(id) => JobActionView::CancelNative(id@),
            JobAction::Finished => JobActionView::Finished,
        }
    }
}

/// An answer to a [`JobAction`].
pub enum JobReply {
    Job(PrintResult<Option<PrintJob>>),
    Active(PrintResult<Vec<PrintJob>>),
    Share(PrintResult<Option<PrinterShare>>),
    Saved(PrintResult<()>),
    Submitted(PrintResult<NativeJobId>),
    Status(PrintResult<NativeJobStatus>),
    Cancelled(PrintResult<()>),
}

pub enum JobReplyView {
    Job(core::result::Result<Option<PrintJobView>, PrintErrorView>),
    Active(core::result::Result<Seq<PrintJobView>, PrintErrorView>),
    Share(core::result::Result<Option<PrinterShareView>, PrintErrorView>),
    Saved(core::result::Result<(), PrintErrorView>),
    Submitted(core::result::Result<Seq<char>, PrintErrorView>),
    Status(core::result::Result<NativeJobStatus, PrintErrorView>),
    Cancelled(core::result::Result<(), PrintErrorView>),
}

impl View for JobReply {
    type V = JobReplyView;

    open spec fn view(&self) -> JobReplyView {
        match *self {
            JobReply::Job(r) => JobReplyView::Job(optional(r)),
            JobReply::Active(r) => JobReplyView::Active(listed(r)),
            JobReply::Share(r) => JobReplyView::Share(optional(r)),
            JobReply::Saved(r) => JobReplyView::Saved(outcome(r)),
            JobReply::Submitted(r) => JobReplyView::Submitted(outcome(r)),
            JobReply::Status(r) => JobReplyView::Status(plain(r)),
            JobReply::Cancelled(r) => JobReplyView::Cancelled(outcome(r)),
        }
    }
}

/// Where an operation on a job stands.
pub enum JobFlow {
    /// An offer: has the device offered a job under this name before?
    OfferLookup(OfferRequest),
    /// An offer made at the given time: how busy is the device?
    OfferActive(OfferRequest, TimestampMs),
    /// An offer made at the given time: does the printer take it?
    OfferShare(OfferRequest, TimestampMs),
    /// A step of the preparation of a job.
    PrepareLookup(PrintJobId, PreparationStep),
    SubmitLookup(PrintJobId),
    SubmitShare(PrintJob),
    /// The job is marked as being submitted before the spooler sees it.
    SubmitMark(PrintJob, LocalPrinterId),
    SubmitHand(PrintJob, LocalPrinterId),
    /// The spooler has taken the job, which is to be recorded.
    SubmitQueued(PrintJob, NativeJobId),
    /// The spooler has taken the job, but recording that has failed.
    SubmitUnrecorded(PrintJob, String),
    /// The spooler has failed; it may have taken the job or not.
    SubmitUncertain(PrintJob, String),
    CancelOwnedLookup(PrintJobId, DeviceId),
    CancelLookup(PrintJobId),
    CancelNative(PrintJob, NativeJobId),
    OwnedLookup(PrintJobId, DeviceId),
    RefreshLookup(PrintJobId, DeviceId),
    RefreshStatus(PrintJob, NativeJobId),
    /// The job is stored, and then the operation has succeeded.
    Saving(PrintJob),
    Done(PrintResult<PrintJob>),
}

pub enum JobFlowView {
    OfferLookup(OfferRequestView),
    OfferActive(OfferRequestView, TimestampMs),
    OfferShare(OfferRequestView, TimestampMs),
    PrepareLookup(Seq<char>, PreparationStep),
    SubmitLookup(Seq<char>),
    SubmitShare(PrintJobView),
    SubmitMark(PrintJobView, Seq<char>),
    SubmitHand(PrintJobView, Seq<char>),
    SubmitQueued(PrintJobView, Seq<char>),
    SubmitUnrecorded(PrintJobView, Seq<char>),
    SubmitUncertain(PrintJobView, Seq<char>),
    CancelOwnedLookup(Seq<char>, Seq<char>),
    CancelLookup(Seq<char>),
    CancelNative(PrintJobView, Seq<char>),
    OwnedLookup(Seq<char>, Seq<char>),
    RefreshLookup(Seq<char>, Seq<char>),
    RefreshStatus(PrintJobView, Seq<char>),
    Saving(PrintJobView),
    Done(core::result::Result<PrintJobView, PrintErrorView>),
}

impl View for JobFlow {
    type V = JobFlowView;

    open spec fn view(&self) -> JobFlowView {
        match *self {
            JobFlow::OfferLookup(request) => JobFlowView::OfferLookup(request@),
            JobFlow::OfferActive(request, at) => JobFlowView::OfferActive(request@, at),
            JobFlow::OfferShare(request, at) => JobFlowView::OfferShare(request@, at),
            JobFlow::PrepareLookup(id, step) => JobFlowView::PrepareLookup(id@, step),
            JobFlow::SubmitLookup(id) => JobFlowView::SubmitLookup(id@),
            JobFlow::SubmitShare(job) => JobFlowView::SubmitShare(job@),
            JobFlow::SubmitMark(job, printer) => JobFlowView::SubmitMark(job@, printer@),
            JobFlow::SubmitHand(job, printer) => JobFlowView::SubmitHand(job@, printer@),
            JobFlow::SubmitQueued(job, id) => JobFlowView::SubmitQueued(job@, id@),
            JobFlow::SubmitUnrecorded(job, m) => JobFlowView::SubmitUnrecorded(job@, m@),
            JobFlow::SubmitUncertain(job, m) => JobFlowView::SubmitUncertain(job@, m@),
            JobFlow::CancelOwnedLookup(id, source) => JobFlowView::CancelOwnedLookup(
                id@,
                source@,
            ),
            JobFlow::CancelLookup(id) => JobFlowView::CancelLookup(id@),
            JobFlow::CancelNative(job, id) => JobFlowView::CancelNative(job@, id@),
            JobFlow::OwnedLookup(id, source) => JobFlowView::OwnedLookup(id@, source@),
            JobFlow::RefreshLookup(id, source) => JobFlowView::RefreshLookup(id@, source@),
            JobFlow::RefreshStatus(job, id) => JobFlowView::RefreshStatus(job@, id@),
            JobFlow::Saving(job) => JobFlowView::Saving(job@),
            JobFlow::Done(result) => JobFlowView::Done(outcome(result)),
        }
    }
}

/// The message of a submission whose outcome the spooler did not tell.
pub open spec fn uncertain_message(error: PrintErrorView) -> Seq<char> {
    "native spooler submission result is uncertain; inspect the system queue before retrying: "@
        + error.text()
}

/// The message of a submission that could not be recorded.
pub open spec fn unrecorded_message(native_id: Seq<char>, error: PrintErrorView) -> Seq<char> {
    "native job "@ + native_id + " was submitted but its queued state could not be saved: "@
        + error.text()
}

/// A found job that belongs to `source`; of others nobody learns that they
/// exist.
pub open spec fn owned(
    found: Option<PrintJobView>,
    id: Seq<char>,
    source: Seq<char>,
) -> core::result::Result<PrintJobView, PrintErrorView> {
    match found {
        Some(job) => if job.source_device_id == source {
            Ok(job)
        } else {
            Err(PrintErrorView::NotFound(id))
        },
        None => Err(PrintErrorView::NotFound(id)),
    }
}

impl JobFlowView {
    /// What the flow asks for.
    pub open spec fn action(self) -> JobActionView {
        match self {
            JobFlowView::OfferLookup(request) => JobActionView::FindClientJob(
                request.source_device_id,
                request.client_job_id,
            ),
            JobFlowView::OfferActive(_, _) => JobActionView::ListActive,
            JobFlowView::OfferShare(request, _) => JobActionView::FindShare(
                request.printer_share_id,
            ),
            JobFlowView::PrepareLookup(id, _) => JobActionView::FindJob(id),
            JobFlowView::SubmitLookup(id) => JobActionView::FindJob(id),
            JobFlowView::SubmitShare(job) => JobActionView::FindShare(job.printer_share_id),
            JobFlowView::SubmitMark(job, _) => JobActionView::Save(job),
            JobFlowView::SubmitHand(job, printer) => JobActionView::Submit(printer, job),
            JobFlowView::SubmitQueued(job, _) => JobActionView::Save(job),
            JobFlowView::SubmitUnrecorded(job, _) => JobActionView::Save(job),
            JobFlowView::SubmitUncertain(job, _) => JobActionView::Save(job),
            JobFlowView::CancelOwnedLookup(id, _) => JobActionView::FindJob(id),
            JobFlowView::CancelLookup(id) => JobActionView::FindJob(id),
            JobFlowView::CancelNative(_, id) => JobActionView::CancelNative(id),
            JobFlowView::OwnedLookup(id, _) => JobActionView::FindJob(id),
            JobFlowView::RefreshLookup(id, _) => JobActionView::FindJob(id),
            JobFlowView::RefreshStatus(_, id) => JobActionView::QueryNative(id),
            JobFlowView::Saving(job) => JobActionView::Save(job),
            JobFlowView::Done(_) => JobActionView::Finished,
        }
    }

    /// The flow that stores the job that an update yields, or ends with the
    /// update's error.
    pub open spec fn save(updated: core::result::Result<PrintJobView, PrintErrorView>) -> Self {
        match updated {
            Ok(job) => JobFlowView::Saving(job),
            Err(error) => JobFlowView::Done(Err(error)),
        }
    }

    /// The flow that refreshes a job which its owner has asked about.
    pub open spec fn refresh(job: PrintJobView, now_ms: TimestampMs) -> Self {
        if !job.inspectable() {
            JobFlowView::Done(Ok(job))
        } else {
            match job.native_job_id {
                Some(id) => JobFlowView::RefreshStatus(job, id),
                None => if job.state == PrintJobState::Ambiguous {
                    JobFlowView::Done(Ok(job))
                } else {
                    JobFlowView::save(
                        job.moved_with(
                            PrintJobState::Held,
                            Some("native print job id is unavailable"@),
                            now_ms,
                        ),
                    )
                },
            }
        }
    }

    /// The flow after `found` has been looked up.
    pub open spec fn after_job(
        self,
        found: core::result::Result<Option<PrintJobView>, PrintErrorView>,
        now_ms: TimestampMs,
    ) -> Self {
        match found {
            Err(error) => JobFlowView::Done(Err(error)),
            Ok(found) => match self {
                JobFlowView::OfferLookup(request) => match found {
                    Some(job) => if request.repeats(job) {
                        JobFlowView::Done(Ok(job))
                    } else {
                        JobFlowView::Done(
                            Err(
                                PrintErrorView::Conflict(
                                    "client print job id was reused with different content"@,
                                ),
                            ),
                        )
                    },
                    None => JobFlowView::OfferActive(request, now_ms),
                },
                JobFlowView::PrepareLookup(id, step) => match found {
                    Some(job) => JobFlowView::save(job.after_preparation(step, now_ms)),
                    None => JobFlowView::Done(Err(PrintErrorView::NotFound(id))),
                },
                JobFlowView::SubmitLookup(id) => match found {
                    Some(job) => JobFlowView::SubmitShare(job),
                    None => JobFlowView::Done(Err(PrintErrorView::NotFound(id))),
                },
                JobFlowView::CancelLookup(id) => match found {
                    Some(job) => match job.native_job_id {
                        Some(native) => JobFlowView::CancelNative(job, native),
                        None => JobFlowView::save(job.moved(PrintJobState::Cancelled, now_ms)),
                    },
                    None => JobFlowView::Done(Err(PrintErrorView::NotFound(id))),
                },
                JobFlowView::CancelOwnedLookup(id, source) => match owned(found, id, source) {
                    Ok(_) => JobFlowView::CancelLookup(id),
                    Err(error) => JobFlowView::Done(Err(error)),
                },
                JobFlowView::OwnedLookup(id, source) => JobFlowView::Done(
                    owned(found, id, source),
                ),
                JobFlowView::RefreshLookup(id, source) => match owned(found, id, source) {
                    Ok(job) => JobFlowView::refresh(job, now_ms),
                    Err(error) => JobFlowView::Done(Err(error)),
                },
                _ => self,
            },
        }
    }

    /// The flow after `share` has been looked up; a new job is called `fresh`.
    pub open spec fn after_share(
        self,
        share: core::result::Result<Option<PrinterShareView>, PrintErrorView>,
        now_ms: TimestampMs,
        fresh: Seq<char>,
    ) -> Self {
        match share {
            Err(error) => JobFlowView::Done(Err(error)),
            Ok(share) => match self {
                JobFlowView::OfferShare(request, at) => match request.refusal(share) {
                    Some(error) => JobFlowView::Done(Err(error)),
                    None => JobFlowView::Saving(
                        offered_job(
                            fresh,
                            request.client_job_id,
                            request.source_device_id,
                            request.printer_share_id,
                            request.document,
                            request.options,
                            at,
                        ),
                    ),
                },
                JobFlowView::SubmitShare(job) => match share {
                    None => JobFlowView::Done(Err(PrintErrorView::NotFound(job.printer_share_id))),
                    Some(share) => if share.state != ShareState::Published {
                        JobFlowView::Done(
                            Err(
                                PrintErrorView::InvalidState(
                                    "printer share was stopped before submission"@,
                                ),
                            ),
                        )
                    } else {
                        match job.moved(PrintJobState::Submitting, now_ms) {
                            Ok(marked) => JobFlowView::SubmitMark(marked, share.local_printer_id),
                            Err(error) => JobFlowView::Done(Err(error)),
                        }
                    },
                },
                _ => self,
            },
        }
    }

    /// The flow after a job has been stored, or could not be.
    pub open spec fn after_save(
        self,
        saved: core::result::Result<(), PrintErrorView>,
        now_ms: TimestampMs,
    ) -> Self {
        match (self, saved) {
            (JobFlowView::Saving(job), Ok(_)) => JobFlowView::Done(Ok(job)),
            (JobFlowView::Saving(_), Err(error)) => JobFlowView::Done(Err(error)),
            (JobFlowView::SubmitMark(job, printer), Ok(_)) => JobFlowView::SubmitHand(job, printer),
            (JobFlowView::SubmitMark(_, _), Err(error)) => JobFlowView::Done(Err(error)),
            (JobFlowView::SubmitQueued(job, _), Ok(_)) => JobFlowView::Done(Ok(job)),
            (JobFlowView::SubmitQueued(job, native), Err(error)) => {
                let message = unrecorded_message(native, error);
                match job.after_ambiguous(Some(native), message, now_ms) {
                    Ok(doubtful) => JobFlowView::SubmitUnrecorded(doubtful, message),
                    Err(error) => JobFlowView::Done(Err(error)),
                }
            },
            (JobFlowView::SubmitUnrecorded(_, message), Ok(_)) => JobFlowView::Done(
                Err(PrintErrorView::Backend(message)),
            ),
            (JobFlowView::SubmitUnrecorded(_, message), Err(error)) => JobFlowView::Done(
                Err(
                    PrintErrorView::Persistence(
                        message + "; ambiguous state also could not be saved: "@ + error.text(),
                    ),
                ),
            ),
            (JobFlowView::SubmitUncertain(_, message), Ok(_)) => JobFlowView::Done(
                Err(PrintErrorView::Backend(message)),
            ),
            (JobFlowView::SubmitUncertain(_, _), Err(error)) => JobFlowView::Done(Err(error)),
            _ => self,
        }
    }

    /// The flow after `reply`; a new job is called `fresh`. An answer to
    /// another question changes nothing.
    pub open spec fn resumed(self, reply: JobReplyView, now_ms: TimestampMs, fresh: Seq<char>) -> Self {
        match (self.action(), reply) {
            (JobActionView::FindClientJob(_, _), JobReplyView::Job(found)) => self.after_job(
                found,
                now_ms,
            ),
            (JobActionView::FindJob(_), JobReplyView::Job(found)) => self.after_job(found, now_ms),
            (JobActionView::ListActive, JobReplyView::Active(Err(error))) => JobFlowView::Done(
                Err(error),
            ),
            (JobActionView::ListActive, JobReplyView::Active(Ok(jobs))) => match self {
                JobFlowView::OfferActive(request, at) => if request.counted(jobs, at)
                    >= MAX_ACTIVE_JOBS_PER_DEVICE {
                    JobFlowView::Done(
                        Err(PrintErrorView::Conflict("device already has 8 active print jobs"@)),
                    )
                } else {
                    JobFlowView::OfferShare(request, at)
                },
                _ => self,
            },
            (JobActionView::FindShare(_), JobReplyView::Share(share)) => self.after_share(
                share,
                now_ms,
                fresh,
            ),
            (JobActionView::Save(_), JobReplyView::Saved(saved)) => self.after_save(saved, now_ms),
            (JobActionView::Submit(_, job), JobReplyView::Submitted(Ok(native))) => match job.after_queued(
                native,
                now_ms,
            ) {
                Ok(queued) => JobFlowView::SubmitQueued(queued, native),
                Err(error) => JobFlowView::Done(Err(error)),
            },
            (JobActionView::Submit(_, job), JobReplyView::Submitted(Err(error))) => {
                let message = uncertain_message(error);
                match job.after_ambiguous(None, message, now_ms) {
                    Ok(doubtful) => JobFlowView::SubmitUncertain(doubtful, message),
                    Err(error) => JobFlowView::Done(Err(error)),
                }
            },
            (JobActionView::QueryNative(_), JobReplyView::Status(Err(error))) => JobFlowView::Done(
                Err(error),
            ),
            (JobActionView::QueryNative(id), JobReplyView::Status(Ok(status))) => match self {
                JobFlowView::RefreshStatus(job, _) => JobFlowView::save(
                    job.after_report(
                        status,
                        id,
                        job.state == PrintJobState::Held || job.state == PrintJobState::Ambiguous,
                        now_ms,
                    ),
                ),
                _ => self,
            },
            (JobActionView::CancelNative(_), JobReplyView::Cancelled(Err(error))) => {
                JobFlowView::Done(Err(error))
            },
            (JobActionView::CancelNative(_), JobReplyView::Cancelled(Ok(_))) => match self {
                JobFlowView::CancelNative(job, _) => JobFlowView::save(
                    job.moved(PrintJobState::Cancelled, now_ms),
                ),
                _ => self,
            },
            _ => self,
        }
    }
}

fn save(job: PrintJob, updated: PrintResult<()>) -> (r: JobFlow)
    ensures
        r@ == JobFlowView::save(
            match updated {
                Ok(_) => Ok(job@),
                Err(error) => Err(error@),
            },
        ),
{
    match updated {
        Ok(_) => JobFlow::Saving(job),
        Err(error) => JobFlow::Done(Err(error)),
    }
}

fn not_found(id: &PrintJobId) -> (r: JobFlow)
    ensures
        r@ == JobFlowView::Done(Err(PrintErrorView::NotFound(id@))),
{
    JobFlow::Done(Err(PrintError::NotFound(id.to_string())))
}

fn require_owner(found: Option<PrintJob>, id: &PrintJobId, source: &DeviceId) -> (r: PrintResult<
    PrintJob,
>)
    ensures
        outcome(r) == owned(opt(found), id@, source@),
{
    match found {
        Some(job) => if job.source_device_id.same(source) {
            Ok(job)
        } else {
            Err(PrintError::NotFound(id.to_string()))
        },
        None => Err(PrintError::NotFound(id.to_string())),
    }
}

fn refresh(mut job: PrintJob, now_ms: TimestampMs) -> (r: JobFlow)
    ensures
        r@ == JobFlowView::refresh(job@, now_ms),
{
    if !inspectable(job.state) {
        return JobFlow::Done(Ok(job));
    }
    let native = match &job.native_job_id {
        Some(id) => Some(id.clone()),
        None => None,
    };
    match native {
        Some(id) => JobFlow::RefreshStatus(job, id),
        None => {
            if job.state == PrintJobState::Ambiguous {
                return JobFlow::Done(Ok(job));
            }
            let updated = job.hold("native print job id is unavailable".to_string(), now_ms);
            save(job, updated)
        },
    }
}

fn cancel(mut job: PrintJob, now_ms: TimestampMs) -> (r: JobFlow)
    ensures
        r@ == JobFlowView::save(job@.moved(PrintJobState::Cancelled, now_ms)),
{
    let updated = job.cancel(now_ms);
    save(job, updated)
}

fn uncertain(error: &PrintError) -> (r: String)
    ensures
        r@ == uncertain_message(error@),
{
    let mut message =
        "native spooler submission result is uncertain; inspect the system queue before retrying: ".to_string();
    message.append(error.to_string().as_str());
    message
}

fn unrecorded(native: &NativeJobId, error: &PrintError) -> (r: String)
    ensures
        r@ == unrecorded_message(native@, error@),
{
    let mut message = "native job ".to_string();
    message.append(native.as_str());
    message.append(" was submitted but its queued state could not be saved: ");
    message.append(error.to_string().as_str());
    message
}

impl JobFlow {
    /// What the flow asks for.
    pub fn action(&self) -> (r: JobAction<'_>)
        ensures
            r@ == self@.action(),
    {
        match self {
            JobFlow::OfferLookup(request) => JobAction::FindClientJob(
                &request.source_device_id,
                &request.client_job_id,
            ),
            JobFlow::OfferActive(_, _) => JobAction::ListActive,
            JobFlow::OfferShare(request, _) => JobAction::FindShare(&request.printer_share_id),
            JobFlow::PrepareLookup(id, _) => JobAction::FindJob(id),
            JobFlow::SubmitLookup(id) => JobAction::FindJob(id),
            JobFlow::SubmitShare(job) => JobAction::FindShare(&job.printer_share_id),
            JobFlow::SubmitMark(job, _) => JobAction::Save(job),
            JobFlow::SubmitHand(job, printer) => JobAction::Submit(printer, job),
            JobFlow::SubmitQueued(job, _) => JobAction::Save(job),
            JobFlow::SubmitUnrecorded(job, _) => JobAction::Save(job),
            JobFlow::SubmitUncertain(job, _) => JobAction::Save(job),
            JobFlow::CancelOwnedLookup(id, _) => JobAction::FindJob(id),
            JobFlow::CancelLookup(id) => JobAction::FindJob(id),
            JobFlow::CancelNative(_, id) => JobAction::CancelNative(id),
            JobFlow::OwnedLookup(id, _) => JobAction::FindJob(id),
            JobFlow::RefreshLookup(id, _) => JobAction::FindJob(id),
            JobFlow::RefreshStatus(_, id) => JobAction::QueryNative(id),
            JobFlow::Saving(job) => JobAction::Save(job),
            JobFlow::Done(_) => JobAction::Finished,
        }
    }

    fn after_job(self, found: PrintResult<Option<PrintJob>>, now_ms: TimestampMs) -> (r: Self)
        ensures
            r@ == self@.after_job(
                optional(found),
                now_ms,
            ),
    {
        let found = match found {
            Ok(found) => found,
            Err(error) => {
                return JobFlow::Done(Err(error));
            },
        };
        match self {
            JobFlow::OfferLookup(request) => match found {
                Some(job) => {
                    if request.is_repeated_by(&job) {
                        JobFlow::Done(Ok(job))
                    } else {
                        JobFlow::Done(
                            Err(
                                PrintError::Conflict(
                                    "client print job id was reused with different content".to_string(),
                                ),
                            ),
                        )
                    }
                },
                None => JobFlow::OfferActive(request, now_ms),
            },
            JobFlow::PrepareLookup(id, step) => match found {
                Some(found) => {
                    let mut job = found;
                    let updated = prepare(&mut job, &step, now_ms);
                    save(job, updated)
                },
                None => not_found(&id),
            },
            JobFlow::SubmitLookup(id) => match found {
                Some(job) => JobFlow::SubmitShare(job),
                None => not_found(&id),
            },
            JobFlow::CancelLookup(id) => match found {
                Some(job) => {
                    let native = match &job.native_job_id {
                        Some(native) => Some(native.clone()),
                        None => None,
                    };
                    match native {
                        Some(native) => JobFlow::CancelNative(job, native),
                        None => cancel(job, now_ms),
                    }
                },
                None => not_found(&id),
            },
            JobFlow::CancelOwnedLookup(id, source) => match require_owner(found, &id, &source) {
                Ok(_) => JobFlow::CancelLookup(id),
                Err(error) => JobFlow::Done(Err(error)),
            },
            JobFlow::OwnedLookup(id, source) => JobFlow::Done(require_owner(found, &id, &source)),
            JobFlow::RefreshLookup(id, source) => match require_owner(found, &id, &source) {
                Ok(job) => refresh(job, now_ms),
                Err(error) => JobFlow::Done(Err(error)),
            },
            other => other,
        }
    }

    fn after_share(self, share: PrintResult<Option<PrinterShare>>, now_ms: TimestampMs) -> (r: Self)
        ensures
            exists|fresh: Seq<char>|
                is_random_text(fresh) && r@ == #[trigger] self@.after_share(
                    optional(share),
                    now_ms,
                    fresh,
                ),
    {
        let ghost answer = optional(share);
        let ghost any = lemma_random_text_exists();
        let share = match share {
            Ok(share) => share,
            Err(error) => {
                let r = JobFlow::Done(Err(error));
                assert(r@ == self@.after_share(answer, now_ms, any));
                return r;
            },
        };
        match self {
            JobFlow::OfferShare(request, at) => {
                let r = match request.check(&share) {
                    Err(error) => JobFlow::Done(Err(error)),
                    Ok(_) => {
                        match PrintJob::offer(
                            request.client_job_id,
                            request.source_device_id,
                            request.printer_share_id,
                            request.document,
                            request.options,
                            at,
                        ) {
                            Ok(job) => {
                                let r = JobFlow::Saving(job);
                                assert(r@ == self@.after_share(answer, now_ms, job@.id));
                                return r;
                            },
                            Err(error) => JobFlow::Done(Err(error)),
                        }
                    },
                };
                assert(r@ == self@.after_share(answer, now_ms, any));
                r
            },
            JobFlow::SubmitShare(found) => {
                let r = match share {
                    None => JobFlow::Done(
                        Err(PrintError::NotFound(found.printer_share_id.to_string())),
                    ),
                    Some(share) => {
                        if share.state != ShareState::Published {
                            JobFlow::Done(
                                Err(
                                    PrintError::InvalidState(
                                        "printer share was stopped before submission".to_string(),
                                    ),
                                ),
                            )
                        } else {
                            let mut job = found;
                            match job.begin_submitting(now_ms) {
                                Ok(_) => JobFlow::SubmitMark(job, share.local_printer_id),
                                Err(error) => JobFlow::Done(Err(error)),
                            }
                        }
                    },
                };
                assert(r@ == self@.after_share(answer, now_ms, any));
                r
            },
            other => {
                assert(other@ == self@.after_share(answer, now_ms, any));
                other
            },
        }
    }

    fn after_save(self, saved: PrintResult<()>, now_ms: TimestampMs) -> (r: Self)
        ensures
            r@ == self@.after_save(outcome(saved), now_ms),
    {
        match (self, saved) {
            (JobFlow::Saving(job), Ok(_)) => JobFlow::Done(Ok(job)),
            (JobFlow::Saving(_), Err(error)) => JobFlow::Done(Err(error)),
            (JobFlow::SubmitMark(job, printer), Ok(_)) => JobFlow::SubmitHand(job, printer),
            (JobFlow::SubmitMark(_, _), Err(error)) => JobFlow::Done(Err(error)),
            (JobFlow::SubmitQueued(job, _), Ok(_)) => JobFlow::Done(Ok(job)),
            (JobFlow::SubmitQueued(queued, native), Err(error)) => {
                let message = unrecorded(&native, &error);
                let mut job = queued;
                match job.submission_ambiguous(Some(native), message.clone(), now_ms) {
                    Ok(_) => JobFlow::SubmitUnrecorded(job, message),
                    Err(error) => JobFlow::Done(Err(error)),
                }
            },
            (JobFlow::SubmitUnrecorded(_, message), Ok(_)) => JobFlow::Done(
                Err(PrintError::Backend(message)),
            ),
            (JobFlow::SubmitUnrecorded(_, first), Err(error)) => {
                let mut message = first;
                message.append("; ambiguous state also could not be saved: ");
                message.append(error.to_string().as_str());
                JobFlow::Done(Err(PrintError::Persistence(message)))
            },
            (JobFlow::SubmitUncertain(_, message), Ok(_)) => JobFlow::Done(
                Err(PrintError::Backend(message)),
            ),
            (JobFlow::SubmitUncertain(_, _), Err(error)) => JobFlow::Done(Err(error)),
            (other, _) => other,
        }
    }

    fn after_submit(self, submitted: PrintResult<NativeJobId>, now_ms: TimestampMs) -> (r: Self)
        requires
            self is SubmitHand,
        ensures
            forall|fresh: Seq<char>|
                r@ == #[trigger] self@.resumed(
                    JobReplyView::Submitted(outcome(submitted)),
                    now_ms,
                    fresh,
                ),
    {
        match self {
            JobFlow::SubmitHand(handed, _) => {
                let mut job = handed;
                match submitted {
                    Ok(native) => match job.queued(native.clone(), now_ms) {
                        Ok(_) => JobFlow::SubmitQueued(job, native),
                        Err(error) => JobFlow::Done(Err(error)),
                    },
                    Err(error) => {
                        let message = uncertain(&error);
                        match job.submission_ambiguous(None, message.clone(), now_ms) {
                            Ok(_) => JobFlow::SubmitUncertain(job, message),
                            Err(error) => JobFlow::Done(Err(error)),
                        }
                    },
                }
            },
            other => other,
        }
    }

    fn after_status(self, status: PrintResult<NativeJobStatus>, now_ms: TimestampMs) -> (r: Self)
        requires
            self is RefreshStatus,
        ensures
            forall|fresh: Seq<char>|
                r@ == #[trigger] self@.resumed(
                    JobReplyView::Status(
                        plain(status),
                    ),
                    now_ms,
                    fresh,
                ),
    {
        match self {
            JobFlow::RefreshStatus(known, native) => match status {
                Ok(status) => {
                    let mut job = known;
                    let requeues = job.state == PrintJobState::Held || job.state
                        == PrintJobState::Ambiguous;
                    let updated = report(&mut job, status, native, requeues, now_ms);
                    save(job, updated)
                },
                Err(error) => JobFlow::Done(Err(error)),
            },
            other => other,
        }
    }

    /// Takes an answer and moves on.
    pub fn resume(self, reply: JobReply, now_ms: TimestampMs) -> (r: Self)
        ensures
            exists|fresh: Seq<char>|
                is_random_text(fresh) && r@ == #[trigger] self@.resumed(reply@, now_ms, fresh),
    {
        let ghost any = lemma_random_text_exists();
        let ghost before = self@;
        let ghost answer = reply@;
        match self {
            JobFlow::OfferShare(_, _) | JobFlow::SubmitShare(_) => match reply {
                JobReply::Share(share) => {
                    let r = self.after_share(share, now_ms);
                    let ghost fresh = choose|fresh: Seq<char>|
                        is_random_text(fresh) && r@ == #[trigger] before.after_share(
                            optional(share),
                            now_ms,
                            fresh,
                        );
                    assert(r@ == before.resumed(answer, now_ms, fresh));
                    r
                },
                _ => {
                    assert(before == before.resumed(answer, now_ms, any));
                    self
                },
            },
            flow => {
                let r = flow.resume_known(reply, now_ms);
                assert(r@ == before.resumed(answer, now_ms, any));
                r
            },
        }
    }

    fn resume_known(self, reply: JobReply, now_ms: TimestampMs) -> (r: Self)
        requires
            !(self is OfferShare),
            !(self is SubmitShare),
        ensures
            forall|fresh: Seq<char>| r@ == #[trigger] self@.resumed(reply@, now_ms, fresh),
    {
        match self {
            JobFlow::OfferActive(request, at) => match reply {
                JobReply::Active(Err(error)) => JobFlow::Done(Err(error)),
                JobReply::Active(Ok(jobs)) => {
                    if request.count(&jobs, at) >= MAX_ACTIVE_JOBS_PER_DEVICE {
                        JobFlow::Done(
                            Err(
                                PrintError::Conflict(
                                    "device already has 8 active print jobs".to_string(),
                                ),
                            ),
                        )
                    } else {
                        JobFlow::OfferShare(request, at)
                    }
                },
                _ => JobFlow::OfferActive(request, at),
            },
            JobFlow::OfferLookup(_)
            | JobFlow::PrepareLookup(_, _)
            | JobFlow::SubmitLookup(_)
            | JobFlow::CancelLookup(_)
            | JobFlow::CancelOwnedLookup(_, _)
            | JobFlow::OwnedLookup(_, _)
            | JobFlow::RefreshLookup(_, _) => match reply {
                JobReply::Job(found) => self.after_job(found, now_ms),
                _ => self,
            },
            JobFlow::SubmitMark(_, _)
            | JobFlow::SubmitQueued(_, _)
            | JobFlow::SubmitUnrecorded(_, _)
            | JobFlow::SubmitUncertain(_, _)
            | JobFlow::Saving(_) => match reply {
                JobReply::Saved(saved) => self.after_save(saved, now_ms),
                _ => self,
            },
            JobFlow::SubmitHand(_, _) => match reply {
                JobReply::Submitted(submitted) => self.after_submit(submitted, now_ms),
                _ => self,
            },
            JobFlow::RefreshStatus(_, _) => match reply {
                JobReply::Status(status) => self.after_status(status, now_ms),
                _ => self,
            },
            JobFlow::CancelNative(job, native) => match reply {
                JobReply::Cancelled(Ok(_)) => cancel(job, now_ms),
                JobReply::Cancelled(Err(error)) => JobFlow::Done(Err(error)),
                _ => JobFlow::CancelNative(job, native),
            },
            other => other,
        }
    }

    /// The result, once the flow has ended.
    pub fn into_result(self) -> (r: core::result::Result<PrintResult<PrintJob>, Self>)
        ensures
            match self@ {
                JobFlowView::Done(result) => r matches Ok(value) && outcome(value) == result,
                _ => r matches Err(flow) && flow@ == self@,
            },
    {
        match self {
            JobFlow::Done(result) => Ok(result),
            flow => Err(flow),
        }
    }
}

/// The flow after a sequence of answers; a job that one of them creates is
/// called `fresh`.
pub open spec fn resumed_all(
    flow: JobFlowView,
    replies: Seq<(JobReplyView, TimestampMs)>,
    fresh: Seq<char>,
) -> JobFlowView
    decreases replies.len(),
{
    if replies.len() == 0 {
        flow
    } else {
        resumed_all(flow, replies.drop_last(), fresh).resumed(
            replies.last().0,
            replies.last().1,
            fresh,
        )
    }
}

impl JobFlowView {
    /// How many answers the flow may still need.
    pub open spec fn remaining(self) -> nat {
        match self {
            JobFlowView::OfferLookup(_) => 4,
            JobFlowView::OfferActive(_, _) => 3,
            JobFlowView::OfferShare(_, _) => 2,
            JobFlowView::PrepareLookup(_, _) => 2,
            JobFlowView::SubmitLookup(_) => 6,
            JobFlowView::SubmitShare(_) => 5,
            JobFlowView::SubmitMark(_, _) => 4,
            JobFlowView::SubmitHand(_, _) => 3,
            JobFlowView::SubmitQueued(_, _) => 2,
            JobFlowView::SubmitUnrecorded(_, _) => 1,
            JobFlowView::SubmitUncertain(_, _) => 1,
            JobFlowView::CancelOwnedLookup(_, _) => 4,
            JobFlowView::CancelLookup(_) => 3,
            JobFlowView::CancelNative(_, _) => 2,
            JobFlowView::OwnedLookup(_, _) => 1,
            JobFlowView::RefreshLookup(_, _) => 3,
            JobFlowView::RefreshStatus(_, _) => 2,
            JobFlowView::Saving(_) => 1,
            JobFlowView::Done(_) => 0,
        }
    }

    /// What holds of the job that a flow works on.
    pub open spec fn wf(self) -> bool {
        match self {
            JobFlowView::SubmitMark(job, _) => job.state == PrintJobState::Submitting,
            JobFlowView::SubmitHand(job, _) => job.state == PrintJobState::Submitting,
            JobFlowView::SubmitQueued(job, native) => job.state == PrintJobState::Queued
                && job.native_job_id == Some(native) && job.failure_message is None,
            JobFlowView::SubmitUnrecorded(job, message) => job.state == PrintJobState::Ambiguous
                && job.native_job_id is Some && job.failure_message == Some(message),
            JobFlowView::SubmitUncertain(job, message) => job.state == PrintJobState::Ambiguous
                && job.failure_message == Some(message),
            JobFlowView::CancelNative(job, native) => job.native_job_id == Some(native),
            JobFlowView::RefreshStatus(job, native) => job.inspectable() && job.native_job_id
                == Some(native),
            _ => true,
        }
    }
}

/// An answer that a flow takes brings it nearer to its end; any other leaves
/// it as it was. So a flow takes at most `remaining` answers.
pub proof fn law_flow_advances(
    flow: JobFlowView,
    reply: JobReplyView,
    now_ms: TimestampMs,
    fresh: Seq<char>,
)
    ensures
        flow.resumed(reply, now_ms, fresh) == flow || flow.resumed(
            reply,
            now_ms,
            fresh,
        ).remaining() < flow.remaining(),
{
}

/// A flow in good order stays so.
pub proof fn law_flow_keeps_order(
    flow: JobFlowView,
    reply: JobReplyView,
    now_ms: TimestampMs,
    fresh: Seq<char>,
)
    requires
        flow.wf(),
    ensures
        flow.resumed(reply, now_ms, fresh).wf(),
{
}

proof fn lemma_remaining_falls(
    flow: JobFlowView,
    replies: Seq<(JobReplyView, TimestampMs)>,
    fresh: Seq<char>,
    i: int,
)
    requires
        0 <= i <= replies.len(),
    ensures
        resumed_all(flow, replies.take(i), fresh) == resumed_all(flow, replies, fresh)
            || resumed_all(flow, replies, fresh).remaining() < resumed_all(
            flow,
            replies.take(i),
            fresh,
        ).remaining(),
    decreases replies.len(),
{
    if i == replies.len() {
        assert(replies.take(i) =~= replies);
    } else {
        assert(replies.drop_last().take(i) =~= replies.take(i));
        lemma_remaining_falls(flow, replies.drop_last(), fresh, i);
        law_flow_advances(
            resumed_all(flow, replies.drop_last(), fresh),
            replies.last().0,
            replies.last().1,
            fresh,
        );
    }
}

/// A flow hands a job to the spooler at most once: where it asks for that
/// twice, it is still waiting for the answer to the first request.
pub proof fn law_handed_over_once(
    flow: JobFlowView,
    replies: Seq<(JobReplyView, TimestampMs)>,
    fresh: Seq<char>,
    i: int,
)
    requires
        0 <= i <= replies.len(),
        resumed_all(flow, replies.take(i), fresh).action() is Submit,
        resumed_all(flow, replies, fresh).action() is Submit,
    ensures
        resumed_all(flow, replies.take(i), fresh) == resumed_all(flow, replies, fresh),
{
    lemma_remaining_falls(flow, replies, fresh, i);
}

/// The spooler sees only jobs whose submission has been recorded: what is
/// handed over was stored in that very state just before.
pub proof fn law_recorded_before_handed_over(
    flow: JobFlowView,
    reply: JobReplyView,
    now_ms: TimestampMs,
    fresh: Seq<char>,
    printer: Seq<char>,
    job: PrintJobView,
)
    requires
        flow.wf(),
        flow.resumed(reply, now_ms, fresh).action() == JobActionView::Submit(printer, job),
        flow.action() != JobActionView::Submit(printer, job),
    ensures
        flow.action() == JobActionView::Save(job),
        reply matches JobReplyView::Saved(Ok(_)),
        job.state == PrintJobState::Submitting,
{
}

/// Only a job that is ready, or whose submission is under way, can be
/// submitted. So a job that may have reached the spooler, that waits there or
/// that has ended is never submitted again.
pub proof fn law_no_resubmission(
    job: PrintJobView,
    share: core::result::Result<Option<PrinterShareView>, PrintErrorView>,
    now_ms: TimestampMs,
    fresh: Seq<char>,
)
    requires
        job.state != PrintJobState::Ready,
        job.state != PrintJobState::Submitting,
    ensures
        JobFlowView::SubmitShare(job).resumed(JobReplyView::Share(share), now_ms, fresh) matches
            JobFlowView::Done(result) && result is Err,
{
}

/// Whatever becomes of a submission, the job that is stored next keeps it
/// from being submitted again.
pub proof fn law_submission_outcome_is_final(
    job: PrintJobView,
    printer: Seq<char>,
    submitted: core::result::Result<Seq<char>, PrintErrorView>,
    now_ms: TimestampMs,
    fresh: Seq<char>,
)
    requires
        job.state == PrintJobState::Submitting,
    ensures
        ({
            let next = JobFlowView::SubmitHand(job, printer).resumed(
                JobReplyView::Submitted(submitted),
                now_ms,
                fresh,
            );
            &&& next.wf()
            &&& next.action() matches JobActionView::Save(stored) && stored.same_identity(job)
                && match submitted {
                Ok(native) => stored.state == PrintJobState::Queued && stored.native_job_id == Some(
                    native,
                ),
                Err(error) => stored.state == PrintJobState::Ambiguous && stored.failure_message
                    == Some(uncertain_message(error)),
            }
        }),
{
}

/// Where the spooler has taken a job and that cannot be recorded, the job is
/// stored as doubtful, with the spooler's name for it, and the caller learns
/// of it.
pub proof fn law_unrecorded_submission_is_reported(
    job: PrintJobView,
    native: Seq<char>,
    error: PrintErrorView,
    now_ms: TimestampMs,
    later_ms: TimestampMs,
    fresh: Seq<char>,
)
    requires
        JobFlowView::SubmitQueued(job, native).wf(),
    ensures
        ({
            let next = JobFlowView::SubmitQueued(job, native).resumed(
                JobReplyView::Saved(Err(error)),
                now_ms,
                fresh,
            );
            &&& next.action() matches JobActionView::Save(stored) && stored.state
                == PrintJobState::Ambiguous && stored.native_job_id == Some(native)
            &&& next.resumed(JobReplyView::Saved(Ok(())), later_ms, fresh) == JobFlowView::Done(
                Err(PrintErrorView::Backend(unrecorded_message(native, error))),
            )
        }),
{
}

/// Offering the same job twice under one name yields the first job and stores
/// nothing; offering another job under that name is a conflict.
pub proof fn law_offers_are_idempotent(
    request: OfferRequestView,
    job: PrintJobView,
    id: Seq<char>,
    at: TimestampMs,
    now_ms: TimestampMs,
    fresh: Seq<char>,
)
    ensures
        request.repeats(
            offered_job(
                id,
                request.client_job_id,
                request.source_device_id,
                request.printer_share_id,
                request.document,
                request.options,
                at,
            ),
        ),
        request.repeats(job) ==> JobFlowView::OfferLookup(request).resumed(
            JobReplyView::Job(Ok(Some(job))),
            now_ms,
            fresh,
        ) == JobFlowView::Done(Ok(job)),
        !request.repeats(job) ==> JobFlowView::OfferLookup(request).resumed(
            JobReplyView::Job(Ok(Some(job))),
            now_ms,
            fresh,
        ) == JobFlowView::Done(
            Err(PrintErrorView::Conflict("client print job id was reused with different content"@)),
        ),
{
}

/// A device that asks about a job of another device gets the answer that it
/// would get if there were no such job.
pub proof fn law_strangers_learn_nothing(
    job: PrintJobView,
    id: Seq<char>,
    source: Seq<char>,
    now_ms: TimestampMs,
    fresh: Seq<char>,
)
    requires
        job.source_device_id != source,
    ensures
        ({
            let found = JobReplyView::Job(Ok(Some(job)));
            let nothing = JobReplyView::Job(Ok(None));
            &&& JobFlowView::OwnedLookup(id, source).resumed(found, now_ms, fresh)
                == JobFlowView::OwnedLookup(id, source).resumed(nothing, now_ms, fresh)
            &&& JobFlowView::RefreshLookup(id, source).resumed(found, now_ms, fresh)
                == JobFlowView::RefreshLookup(id, source).resumed(nothing, now_ms, fresh)
            &&& JobFlowView::CancelOwnedLookup(id, source).resumed(found, now_ms, fresh)
                == JobFlowView::CancelOwnedLookup(id, source).resumed(nothing, now_ms, fresh)
        }),
{
}

/// What the spooler reports of a job that waits there is always taken, and
/// never makes the job ready for submission.
pub proof fn law_reports_are_taken(
    job: PrintJobView,
    status: NativeJobStatus,
    native: Seq<char>,
    requeues: bool,
    now_ms: TimestampMs,
)
    requires
        job.inspectable(),
        requeues ==> job.state == PrintJobState::Held || job.state == PrintJobState::Ambiguous,
    ensures
        job.after_report(status, native, requeues, now_ms) matches Ok(after)
            && after.same_identity(job) && !after.state.before_submission() && after.state
            != PrintJobState::Submitting,
{
}

/// An offer that is new, comes from a device that is not too busy, and is
/// supported by its printer is taken: the job that is stored and given back is
/// the one that was offered, under a fresh identifier.
pub proof fn law_good_offers_are_taken(
    request: OfferRequestView,
    active: Seq<PrintJobView>,
    share: PrinterShareView,
    t1: TimestampMs,
    t2: TimestampMs,
    t3: TimestampMs,
    t4: TimestampMs,
    fresh: Seq<char>,
)
    requires
        request.counted(active, t1) < MAX_ACTIVE_JOBS_PER_DEVICE,
        request.refusal(Some(share)) is None,
    ensures
        ({
            let job = offered_job(
                fresh,
                request.client_job_id,
                request.source_device_id,
                request.printer_share_id,
                request.document,
                request.options,
                t1,
            );
            let stored = JobFlowView::OfferLookup(request).resumed(
                JobReplyView::Job(Ok(None)),
                t1,
                fresh,
            ).resumed(JobReplyView::Active(Ok(active)), t2, fresh).resumed(
                JobReplyView::Share(Ok(Some(share))),
                t3,
                fresh,
            );
            &&& stored.action() == JobActionView::Save(job)
            &&& stored.resumed(JobReplyView::Saved(Ok(())), t4, fresh) == JobFlowView::Done(Ok(job))
        }),
{
}

/// A ready job of a published printer is submitted: it is stored as being
/// submitted, handed to that printer, stored with the spooler's name for it,
/// and given back as waiting there.
pub proof fn law_ready_jobs_are_submitted(
    job: PrintJobView,
    share: PrinterShareView,
    native: Seq<char>,
    t1: TimestampMs,
    t2: TimestampMs,
    t3: TimestampMs,
    t4: TimestampMs,
    t5: TimestampMs,
    fresh: Seq<char>,
)
    requires
        job.state == PrintJobState::Ready,
        share.state == ShareState::Published,
    ensures
        ({
            let marked = PrintJobView {
                state: PrintJobState::Submitting,
                updated_at_ms: t2,
                ..job
            };
            let queued = PrintJobView {
                state: PrintJobState::Queued,
                native_job_id: Some(native),
                failure_message: None,
                updated_at_ms: t4,
                ..job
            };
            let marking = JobFlowView::SubmitLookup(job.id).resumed(
                JobReplyView::Job(Ok(Some(job))),
                t1,
                fresh,
            ).resumed(JobReplyView::Share(Ok(Some(share))), t2, fresh);
            let handing = marking.resumed(JobReplyView::Saved(Ok(())), t3, fresh);
            let recording = handing.resumed(JobReplyView::Submitted(Ok(native)), t4, fresh);
            &&& marking.action() == JobActionView::Save(marked)
            &&& handing.action() == JobActionView::Submit(share.local_printer_id, marked)
            &&& recording.action() == JobActionView::Save(queued)
            &&& recording.resumed(JobReplyView::Saved(Ok(())), t5, fresh) == JobFlowView::Done(
                Ok(queued),
            )
        }),
{
}

/// A job that has not ended is called off: in the spooler first, if it is
/// there, and then in the store.
pub proof fn law_jobs_can_be_cancelled(
    job: PrintJobView,
    t1: TimestampMs,
    t2: TimestampMs,
    t3: TimestampMs,
    fresh: Seq<char>,
)
    requires
        !job.state.is_terminal(),
    ensures
        ({
            let found = JobFlowView::CancelLookup(job.id).resumed(
                JobReplyView::Job(Ok(Some(job))),
                t1,
                fresh,
            );
            match job.native_job_id {
                Some(native) => {
                    let cancelled = PrintJobView {
                        state: PrintJobState::Cancelled,
                        updated_at_ms: t2,
                        ..job
                    };
                    &&& found.action() == JobActionView::CancelNative(native)
                    &&& found.resumed(JobReplyView::Cancelled(Ok(())), t2, fresh).resumed(
                        JobReplyView::Saved(Ok(())),
                        t3,
                        fresh,
                    ) == JobFlowView::Done(Ok(cancelled))
                },
                None => {
                    let cancelled = PrintJobView {
                        state: PrintJobState::Cancelled,
                        updated_at_ms: t1,
                        ..job
                    };
                    found.resumed(JobReplyView::Saved(Ok(())), t3, fresh) == JobFlowView::Done(
                        Ok(cancelled),
                    )
                },
            }
        }),
{
}

} // verus!
