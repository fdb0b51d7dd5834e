//! Taking, submitting, watching and cancelling print jobs.
use vstd::prelude::*;
use vstd::string::*;

use crate::application::job_flow::{JobFlow, JobFlowView};
use crate::application::job_lists::{ReconcileFlow, ReconcileFlowView, RecentFlow, RecentFlowView};
use crate::application::ports::NativeJobStatus;
use crate::domain::capability::{
    ColorMode, DuplexMode, MediaSize, MediaSizeView, PrinterCapabilities, PrinterCapabilitiesView,
};
use crate::domain::event::PrintDomainEvent;
use crate::domain::id::{ClientJobId, DeviceId, NativeJobId, PrintJobId, PrinterShareId};
use crate::domain::job::{
    offer_validation, PrintDocument, PrintDocumentView, PrintJob, PrintJobState, PrintJobView,
    PrintOptions, PrintOptionsView,
};
use crate::domain::share::{PrinterShare, PrinterShareView, ShareState};
use crate::domain::TimestampMs;
use crate::error::{updates, PrintError, PrintErrorView, PrintResult};
use crate::model::{opt, views};
use crate::text::same;

verus! {

/// How many unfinished jobs a device may have.
pub const MAX_ACTIVE_JOBS_PER_DEVICE: usize = 8;

/// How long after its last change an unfinished job still counts.
pub const ACTIVE_JOB_STALE_AFTER_MS: i64 = 30 * 60 * 1_000;

/// A job as a device offers it.
#[derive(Debug, PartialEq, Eq)]
pub struct OfferRequest {
    pub client_job_id: ClientJobId,
    pub source_device_id: DeviceId,
    pub printer_share_id: PrinterShareId,
    pub document: PrintDocument,
    pub options: PrintOptions,
}

pub struct OfferRequestView {
    pub client_job_id: Seq<char>,
    pub source_device_id: Seq<char>,
    pub printer_share_id: Seq<char>,
    pub document: PrintDocumentView,
    pub options: PrintOptionsView,
}

impl View for OfferRequest {
    type V = OfferRequestView;

    open spec fn view(&self) -> OfferRequestView {
        OfferRequestView {
            client_job_id: self.client_job_id@,
            source_device_id: self.source_device_id@,
            printer_share_id: self.printer_share_id@,
            document: self.document@,
            options: self.options@,
        }
    }
}

impl OfferRequestView {
    /// An earlier job that is this one, offered again.
    pub open spec fn repeats(self, job: PrintJobView) -> bool {
        &&& job.printer_share_id == self.printer_share_id
        &&& job.document == self.document
        &&& job.options == self.options
    }

    /// An unfinished job that counts against the limit of the device.
    pub open spec fn counts(self, job: PrintJobView, now_ms: TimestampMs) -> bool {
        &&& job.source_device_id == self.source_device_id
        &&& now_ms - job.updated_at_ms < ACTIVE_JOB_STALE_AFTER_MS
    }

    /// How many of `jobs` count against the limit of the device.
    pub open spec fn counted(self, jobs: Seq<PrintJobView>, now_ms: TimestampMs) -> nat {
        jobs.filter(|job: PrintJobView| self.counts(job, now_ms)).len()
    }

    /// Why the job cannot be printed on the share, if it cannot.
    pub open spec fn refusal(self, share: Option<PrinterShareView>) -> Option<PrintErrorView> {
        match share {
            None => Some(PrintErrorView::NotFound(self.printer_share_id)),
            Some(share) => if share.state != ShareState::Published {
                Some(PrintErrorView::InvalidState("printer is not publicly shared"@))
            } else if !share.capabilities.supports(self.document, self.options) {
                Some(
                    PrintErrorView::Invalid("print options are not supported by this printer"@),
                )
            } else {
                match offer_validation(self.document, self.options) {
                    Err(error) => Some(error),
                    Ok(_) => None,
                }
            },
        }
    }
}

/// Whether a sheet called `name` is among `sizes`.
pub open spec fn has_size(sizes: Seq<MediaSizeView>, name: Seq<char>) -> bool {
    exists|i: int| 0 <= i < sizes.len() && (#[trigger] sizes[i]).name == name
}

impl PrinterCapabilitiesView {
    /// Whether a printer with these capabilities can print `document` with
    /// `options`.
    pub open spec fn supports(self, document: PrintDocumentView, options: PrintOptionsView) -> bool {
        &&& self.color_modes.contains(options.color_mode)
        &&& self.duplex_modes.contains(options.duplex_mode)
        &&& has_size(self.media_sizes, options.media_name)
        &&& options.copies <= self.max_copies
        &&& (options.page_ranges.len() == 0 || self.supports_page_ranges)
        &&& (!options.collate || self.supports_collation)
        &&& self.accepted_document_types.contains(document.media_type)
    }
}

fn has_color(modes: &Vec<ColorMode>, mode: ColorMode) -> (r: bool)
    ensures
        r == modes@.contains(mode),
{
    let mut i: usize = 0;
    while i < modes.len()
        invariant
            i <= modes@.len(),
            forall|j: int| 0 <= j < i ==> modes@[j] != mode,
        decreases modes@.len() - i,
    {
        if modes[i] == mode {
            return true;
        }
        i += 1;
    }
    false
}

fn has_duplex(modes: &Vec<DuplexMode>, mode: DuplexMode) -> (r: bool)
    ensures
        r == modes@.contains(mode),
{
    let mut i: usize = 0;
    while i < modes.len()
        invariant
            i <= modes@.len(),
            forall|j: int| 0 <= j < i ==> modes@[j] != mode,
        decreases modes@.len() - i,
    {
        if modes[i] == mode {
            return true;
        }
        i += 1;
    }
    false
}

fn has_media(sizes: &Vec<MediaSize>, name: &str) -> (r: bool)
    ensures
        r == has_size(views(sizes@), name@),
{
    let mut i: usize = 0;
    while i < sizes.len()
        invariant
            i <= sizes@.len(),
            forall|j: int| 0 <= j < i ==> (#[trigger] views(sizes@)[j]).name != name@,
        decreases sizes@.len() - i,
    {
        if same(sizes[i].name.as_str(), name) {
            assert(views(sizes@)[i as int].name == name@);
            return true;
        }
        i += 1;
    }
    false
}

fn has_text(texts: &Vec<String>, text: &str) -> (r: bool)
    ensures
        r == views(texts@).contains(text@),
{
    let mut i: usize = 0;
    while i < texts.len()
        invariant
            i <= texts@.len(),
            forall|j: int| 0 <= j < i ==> #[trigger] views(texts@)[j] != text@,
        decreases texts@.len() - i,
    {
        if same(texts[i].as_str(), text) {
            assert(views(texts@)[i as int] == text@);
            return true;
        }
        i += 1;
    }
    false
}

impl PrinterCapabilities {
    /// Whether a printer with these capabilities can print `document` with
    /// `options`.
    pub fn allows(&self, document: &PrintDocument, options: &PrintOptions) -> (r: bool)
        ensures
            r == self@.supports(document@, options@),
    {
        has_color(&self.color_modes, options.color_mode) && has_duplex(
            &self.duplex_modes,
            options.duplex_mode,
        ) && has_media(&self.media_sizes, options.media_name.as_str()) && options.copies
            <= self.max_copies && (options.page_ranges.len() == 0 || self.supports_page_ranges)
            && (!options.collate || self.supports_collation) && has_text(
            &self.accepted_document_types,
            document.media_type.as_str(),
        )
    }
}

impl OfferRequest {
    pub(crate) fn is_repeated_by(&self, job: &PrintJob) -> (r: bool)
        ensures
            r == self@.repeats(job@),
    {
        job.printer_share_id.same(&self.printer_share_id) && job.document.same(&self.document)
            && job.options.same(&self.options)
    }

    pub(crate) fn count(&self, jobs: &Vec<PrintJob>, now_ms: TimestampMs) -> (r: usize)
        ensures
            r == self@.counted(views(jobs@), now_ms),
    {
        let ghost all = views(jobs@);
        let ghost counts = |job: PrintJobView| self@.counts(job, now_ms);
        let mut n: usize = 0;
        let mut i: usize = 0;
        assert(all.take(0).filter(counts).len() == 0) by {
            reveal(Seq::filter);
        }
        while i < jobs.len()
            invariant
                i <= jobs@.len(),
                n <= i,
                all == views(jobs@),
                counts == |job: PrintJobView| self@.counts(job, now_ms),
                n == all.take(i as int).filter(counts).len(),
            decreases jobs@.len() - i,
        {
            let job = &jobs[i];
            proof {
                reveal(Seq::filter);
                assert(all.take(i + 1).drop_last() =~= all.take(i as int));
                assert(all.take(i + 1).last() == job@);
            }
            if job.source_device_id.same(&self.source_device_id) && (now_ms as i128)
                - (job.updated_at_ms as i128) < ACTIVE_JOB_STALE_AFTER_MS as i128 {
                n += 1;
            }
            i += 1;
        }
        assert(all.take(i as int) =~= all);
        n
    }

    pub(crate) fn check(&self, share: &Option<PrinterShare>) -> (r: PrintResult<()>)
        ensures
            match self@.refusal(opt(*share)) {
                Some(error) => r matches Err(e) && e@ == error,
                None => r is Ok,
            },
    {
        match share {
            None => Err(PrintError::NotFound(self.printer_share_id.to_string())),
            Some(share) => {
                if share.state != ShareState::Published {
                    return Err(
                        PrintError::InvalidState("printer is not publicly shared".to_string()),
                    );
                }
                if !share.capabilities.allows(&self.document, &self.options) {
                    return Err(
                        PrintError::Invalid(
                            "print options are not supported by this printer".to_string(),
                        ),
                    );
                }
                match self.document.validate() {
                    Ok(_) => self.options.validate(),
                    Err(error) => Err(error),
                }
            },
        }
    }
}

/// A step in the preparation of a job.
#[derive(Debug, Clone, Copy, PartialEq, Eq)]
pub enum PreparationStep {
    BeginReceiving,
    DocumentReceived([u8; 32]),
    MarkValid,
}

impl PrintJobView {
    /// The job after a step of its preparation.
    pub open spec fn after_preparation(
        self,
        step: PreparationStep,
        now_ms: TimestampMs,
    ) -> core::result::Result<Self, PrintErrorView> {
        match step {
            PreparationStep::BeginReceiving => self.moved(PrintJobState::Receiving, now_ms),
            PreparationStep::DocumentReceived(digest) => self.after_document(digest@, now_ms),
            PreparationStep::MarkValid => self.moved(PrintJobState::Ready, now_ms),
        }
    }

    /// States in which the spooler knows how a job fares.
    pub open spec fn inspectable(self) -> bool {
        self.state == PrintJobState::Queued || self.state == PrintJobState::Printing || self.state
            == PrintJobState::Held || self.state == PrintJobState::Ambiguous
    }

    /// The job after the spooler has reported `status`; `requeues` says
    /// whether the report that it is waiting brings it back into the queue.
    pub open spec fn after_report(
        self,
        status: NativeJobStatus,
        native_id: Seq<char>,
        requeues: bool,
        now_ms: TimestampMs,
    ) -> core::result::Result<Self, PrintErrorView> {
        match status {
            NativeJobStatus::Queued => if requeues {
                self.after_queued(native_id, now_ms)
            } else {
                Ok(self)
            },
            NativeJobStatus::Printing => self.moved_with(PrintJobState::Printing, None, now_ms),
            NativeJobStatus::Completed => self.moved_with(PrintJobState::Completed, None, now_ms),
            NativeJobStatus::Held | NativeJobStatus::Unknown => self.moved_with(
                PrintJobState::Held,
                Some("native print status requires inspection"@),
                now_ms,
            ),
            NativeJobStatus::Cancelled => self.moved(PrintJobState::Cancelled, now_ms),
            NativeJobStatus::Failed => self.moved_with(
                PrintJobState::Failed,
                Some("native print job failed"@),
                now_ms,
            ),
        }
    }
}

pub(crate) fn prepare(job: &mut PrintJob, step: &PreparationStep, now_ms: TimestampMs) -> (r: PrintResult<()>)
    ensures
        updates(
            old(job)@,
            final(job)@,
            r,
            old(job)@.after_preparation(*step, now_ms),
        ),
{
    match step {
        PreparationStep::BeginReceiving => job.begin_receiving(now_ms),
        PreparationStep::DocumentReceived(digest) => job.document_received(*digest, now_ms),
        PreparationStep::MarkValid => job.validated(now_ms),
    }
}

pub(crate) fn inspectable(state: PrintJobState) -> (r: bool)
    ensures
        r == (state == PrintJobState::Queued || state == PrintJobState::Printing || state
            == PrintJobState::Held || state == PrintJobState::Ambiguous),
{
    match state {
        PrintJobState::Queued
        | PrintJobState::Printing
        | PrintJobState::Held
        | PrintJobState::Ambiguous => true,
        _ => false,
    }
}

pub(crate) fn report(
    job: &mut PrintJob,
    status: NativeJobStatus,
    native_id: NativeJobId,
    requeues: bool,
    now_ms: TimestampMs,
) -> (r: PrintResult<()>)
    ensures
        updates(
            old(job)@,
            final(job)@,
            r,
            old(job)@.after_report(status, native_id@, requeues, now_ms),
        ),
{
    match status {
        NativeJobStatus::Queued => if requeues {
            job.queued(native_id, now_ms)
        } else {
            Ok(())
        },
        NativeJobStatus::Printing => job.printing(now_ms),
        NativeJobStatus::Completed => job.complete(now_ms),
        NativeJobStatus::Held | NativeJobStatus::Unknown => job.hold(
            "native print status requires inspection".to_string(),
            now_ms,
        ),
        NativeJobStatus::Cancelled => job.cancel(now_ms),
        NativeJobStatus::Failed => job.fail("native print job failed".to_string(), now_ms),
    }
}

/// Print jobs.
#[derive(Debug)]
pub struct PrintJobService;

impl PrintJobService {
    pub fn new() -> Self {
        PrintJobService
    }

    /// Takes a job that a device offers, or finds it if it was offered before.
    pub fn offer(
        &self,
        client_job_id: ClientJobId,
        source_device_id: DeviceId,
        printer_share_id: PrinterShareId,
        document: PrintDocument,
        options: PrintOptions,
    ) -> (r: JobFlow)
        ensures
            r@ == JobFlowView::OfferLookup(
                OfferRequestView {
                    client_job_id: client_job_id@,
                    source_device_id: source_device_id@,
                    printer_share_id: printer_share_id@,
                    document: document@,
                    options: options@,
                },
            ),
    {
        JobFlow::OfferLookup(
            OfferRequest { client_job_id, source_device_id, printer_share_id, document, options },
        )
    }

    /// The document of a job starts to arrive.
    pub fn begin_receiving(&self, id: &PrintJobId) -> (r: JobFlow)
        ensures
            r@ == JobFlowView::PrepareLookup(id@, PreparationStep::BeginReceiving),
    {
        JobFlow::PrepareLookup(id.clone(), PreparationStep::BeginReceiving)
    }

    /// The document of a job has arrived with this digest.
    pub fn document_received(&self, id: &PrintJobId, digest: [u8; 32]) -> (r: JobFlow)
        ensures
            r@ == JobFlowView::PrepareLookup(id@, PreparationStep::DocumentReceived(digest)),
    {
        JobFlow::PrepareLookup(id.clone(), PreparationStep::DocumentReceived(digest))
    }

    /// The document of a job has been found in order.
    pub fn mark_valid(&self, id: &PrintJobId) -> (r: JobFlow)
        ensures
            r@ == JobFlowView::PrepareLookup(id@, PreparationStep::MarkValid),
    {
        JobFlow::PrepareLookup(id.clone(), PreparationStep::MarkValid)
    }

    /// Hands a ready job to the spooler.
    pub fn submit(&self, id: &PrintJobId) -> (r: JobFlow)
        ensures
            r@ == JobFlowView::SubmitLookup(id@),
    {
        JobFlow::SubmitLookup(id.clone())
    }

    /// Calls a job off, in the spooler too if it has got there.
    pub fn cancel(&self, id: &PrintJobId) -> (r: JobFlow)
        ensures
            r@ == JobFlowView::CancelLookup(id@),
    {
        JobFlow::CancelLookup(id.clone())
    }

    /// A job that belongs to `source`.
    pub fn get_owned(&self, id: &PrintJobId, source: &DeviceId) -> (r: JobFlow)
        ensures
            r@ == JobFlowView::OwnedLookup(id@, source@),
    {
        JobFlow::OwnedLookup(id.clone(), source.clone())
    }

    /// A job that belongs to `source`, as the spooler knows it now.
    pub fn refresh_owned(&self, id: &PrintJobId, source: &DeviceId) -> (r: JobFlow)
        ensures
            r@ == JobFlowView::RefreshLookup(id@, source@),
    {
        JobFlow::RefreshLookup(id.clone(), source.clone())
    }

    /// Calls a job off that belongs to `source`.
    pub fn cancel_owned(&self, id: &PrintJobId, source: &DeviceId) -> (r: JobFlow)
        ensures
            r@ == JobFlowView::CancelOwnedLookup(id@, source@),
    {
        JobFlow::CancelOwnedLookup(id.clone(), source.clone())
    }

    /// The latest jobs, at most `limit`, refreshed if that is asked for.
    pub fn list_recent(&self, limit: usize, refresh_active: bool) -> (r: RecentFlow)
        ensures
            r@ == (RecentFlowView::Listing { limit, refresh_active }),
    {
        RecentFlow::Listing { limit, refresh_active }
    }

    /// Reconciles jobs after a start without ever resubmitting a document.
    /// Where the spooler's state is in doubt the job is held for inspection:
    /// that is better than printing it twice.
    pub fn reconcile_active(&self) -> (r: ReconcileFlow)
        ensures
            r@ == ReconcileFlowView::Listing,
    {
        ReconcileFlow::Listing
    }

    /// What is announced when `job` has been stored.
    pub fn stored_event(&self, job: &PrintJob) -> (r: PrintDomainEvent)
        ensures
            r matches PrintDomainEvent::JobStateChanged { job_id, state } && job_id@ == job@.id
                && state == job@.state,
    {
        PrintDomainEvent::JobStateChanged { job_id: job.id.clone(), state: job.state }
    }
}

/// A job is taken only if its document and its options are valid and the
/// printer is published and supports them.
pub proof fn law_taken_offers_are_supported(
    request: OfferRequestView,
    share: Option<PrinterShareView>,
)
    ensures
        request.refusal(share) is None <==> {
            &&& request.document.validation() is Ok
            &&& request.options.validation() is Ok
            &&& share matches Some(known) && known.state == ShareState::Published
                && known.capabilities.supports(request.document, request.options)
        },
{
}

} // verus!
