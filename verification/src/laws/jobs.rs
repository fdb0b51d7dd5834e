//! What becomes of print jobs.
use vstd::prelude::*;
use vstd::utf8::*;

use crate::application::job_flow::{JobActionView, JobFlowView, JobReplyView};
use crate::application::job_service::{OfferRequestView, PreparationStep};
use crate::application::ports::NativeJobStatus;
use crate::domain::TimestampMs;
use crate::domain::job::{PrintDocumentView, PrintJobState, PrintJobView, PrintOptionsView};
use crate::domain::share::{PrinterShareView, ShareState};
use crate::error::PrintErrorView;
use crate::text::is_blank;

verus! {

/// An offer that is new, whose printer has been looked up.
pub open spec fn offer_asked(
    request: OfferRequestView,
    active: Seq<PrintJobView>,
    share: Option<PrinterShareView>,
    t1: TimestampMs,
    t2: TimestampMs,
    t3: TimestampMs,
    fresh: Seq<char>,
) -> JobFlowView {
    JobFlowView::OfferLookup(request).resumed(JobReplyView::Job(Ok(None)), t1, fresh).resumed(
        JobReplyView::Active(Ok(active)),
        t2,
        fresh,
    ).resumed(JobReplyView::Share(Ok(share)), t3, fresh)
}

/// The jobs of a device that count at a time.
pub open spec fn recent_jobs_of(active: Seq<PrintJobView>, device: Seq<char>, at: TimestampMs) -> Seq<
    PrintJobView,
> {
    active.filter(
        |job: PrintJobView| job.source_device_id == device && at - job.updated_at_ms < 1_800_000,
    )
}

proof fn lemma_counted(request: OfferRequestView, active: Seq<PrintJobView>, at: TimestampMs)
    ensures
        request.counted(active, at) == recent_jobs_of(active, request.source_device_id, at).len(),
{
    let ours = |job: PrintJobView|
        job.source_device_id == request.source_device_id && at - job.updated_at_ms < 1_800_000;
    let theirs = |job: PrintJobView| request.counts(job, at);
    assert(ours =~= theirs);
}

/// Whether a document and the options for it make sense by themselves.
pub open spec fn sound(document: PrintDocumentView, options: PrintOptionsView) -> bool {
    &&& !is_blank(document.name)
    &&& encode_utf8(document.name).len() <= 512
    &&& document.media_type == "application/pdf"@ || document.media_type == "image/pwg-raster"@
    &&& 1 <= document.size_bytes <= 524_288_000
    &&& 1 <= options.copies <= 100
    &&& !is_blank(options.media_name)
    &&& forall|i: int|
        0 <= i < options.page_ranges.len() ==> 1 <= (#[trigger] options.page_ranges[i]).first
            <= options.page_ranges[i].last
}

/// A device with fewer than eight recent jobs gets a job printed on a
/// published printer that has the sheet, the color mode, the sides and the
/// kind of document, makes that many copies and can choose pages and collate:
/// the job is stored as it was offered, and given back.
pub proof fn law_printers_take_what_they_can_print(
    request: OfferRequestView,
    active: Seq<PrintJobView>,
    share: PrinterShareView,
    sheet: int,
    t1: TimestampMs,
    t2: TimestampMs,
    t3: TimestampMs,
    t4: TimestampMs,
    fresh: Seq<char>,
)
    requires
        recent_jobs_of(active, request.source_device_id, t1).len() < 8,
        sound(request.document, request.options),
        share.state == ShareState::Published,
        share.capabilities.color_modes.contains(request.options.color_mode),
        share.capabilities.duplex_modes.contains(request.options.duplex_mode),
        0 <= sheet < share.capabilities.media_sizes.len(),
        share.capabilities.media_sizes[sheet].name == request.options.media_name,
        request.options.copies <= share.capabilities.max_copies,
        share.capabilities.accepted_document_types.contains(request.document.media_type),
        share.capabilities.supports_page_ranges || request.options.page_ranges.len() == 0,
        share.capabilities.supports_collation || !request.options.collate,
    ensures
        ({
            let job = PrintJobView {
                id: fresh,
                client_job_id: request.client_job_id,
                source_device_id: request.source_device_id,
                printer_share_id: request.printer_share_id,
                document: request.document,
                options: request.options,
                state: PrintJobState::Offered,
                native_job_id: None,
                failure_message: None,
                created_at_ms: t1,
                updated_at_ms: t1,
            };
            let asked = offer_asked(request, active, Some(share), t1, t2, t3, fresh);
            &&& asked.action() == JobActionView::Save(job)
            &&& asked.resumed(JobReplyView::Saved(Ok(())), t4, fresh) == JobFlowView::Done(Ok(job))
        }),
{
    lemma_counted(request, active, t1);
    let options = request.options;
    assert(share.capabilities.supports(request.document, options));
}

/// What a printer lacks it is not given: without any one of these an offer
/// stores nothing and is refused for that reason.
pub proof fn law_printers_refuse_what_they_cannot_print(
    request: OfferRequestView,
    active: Seq<PrintJobView>,
    share: PrinterShareView,
    t1: TimestampMs,
    t2: TimestampMs,
    t3: TimestampMs,
    fresh: Seq<char>,
)
    requires
        recent_jobs_of(active, request.source_device_id, t1).len() < 8,
        share.state == ShareState::Published,
        ({
            ||| !share.capabilities.color_modes.contains(request.options.color_mode)
            ||| !share.capabilities.duplex_modes.contains(request.options.duplex_mode)
            ||| forall|i: int|
                0 <= i < share.capabilities.media_sizes.len()
                    ==> (#[trigger] share.capabilities.media_sizes[i]).name
                    != request.options.media_name
            ||| request.options.copies > share.capabilities.max_copies
            ||| !share.capabilities.accepted_document_types.contains(request.document.media_type)
            ||| !share.capabilities.supports_page_ranges && request.options.page_ranges.len() > 0
            ||| !share.capabilities.supports_collation && request.options.collate
        }),
    ensures
        offer_asked(request, active, Some(share), t1, t2, t3, fresh) == JobFlowView::Done(
            Err(PrintErrorView::Invalid("print options are not supported by this printer"@)),
        ),
{
    lemma_counted(request, active, t1);
}

/// A printer that collates takes a job with or without collation alike; one
/// that does not takes it exactly without.
pub proof fn law_collation_needs_support_alone(
    request: OfferRequestView,
    active: Seq<PrintJobView>,
    share: PrinterShareView,
    t1: TimestampMs,
    t2: TimestampMs,
    t3: TimestampMs,
    fresh: Seq<char>,
)
    ensures
        ({
            let collated = OfferRequestView {
                options: PrintOptionsView { collate: true, ..request.options },
                ..request
            };
            let loose = OfferRequestView {
                options: PrintOptionsView { collate: false, ..request.options },
                ..request
            };
            let with = offer_asked(collated, active, Some(share), t1, t2, t3, fresh);
            let without = offer_asked(loose, active, Some(share), t1, t2, t3, fresh);
            &&& share.capabilities.supports_collation ==> (with.action() is Save
                <==> without.action() is Save)
            &&& !share.capabilities.supports_collation ==> !(with.action() is Save)
        }),
{
    let collated = OfferRequestView {
        options: PrintOptionsView { collate: true, ..request.options },
        ..request
    };
    let loose = OfferRequestView {
        options: PrintOptionsView { collate: false, ..request.options },
        ..request
    };
    lemma_counted(collated, active, t1);
    lemma_counted(loose, active, t1);
}

/// A job that does not make sense by itself is never stored, whatever its
/// printer can do.
pub proof fn law_unsound_offers_are_refused(
    request: OfferRequestView,
    active: Seq<PrintJobView>,
    share: Option<PrinterShareView>,
    t1: TimestampMs,
    t2: TimestampMs,
    t3: TimestampMs,
    fresh: Seq<char>,
)
    requires
        !sound(request.document, request.options),
    ensures
        offer_asked(request, active, share, t1, t2, t3, fresh) matches JobFlowView::Done(result)
            && result is Err,
{
    let ranges = request.options.page_ranges;
    if request.options.validation() is Ok {
        assert forall|i: int| 0 <= i < ranges.len() implies 1 <= (#[trigger] ranges[i]).first
            <= ranges[i].last by {
            assert(crate::domain::job::valid_range(ranges[i]));
        }
    }
}

/// A printer that is unknown or not published takes no job.
pub proof fn law_only_published_printers_take_jobs(
    request: OfferRequestView,
    active: Seq<PrintJobView>,
    share: PrinterShareView,
    t1: TimestampMs,
    t2: TimestampMs,
    t3: TimestampMs,
    fresh: Seq<char>,
)
    requires
        recent_jobs_of(active, request.source_device_id, t1).len() < 8,
    ensures
        offer_asked(request, active, None, t1, t2, t3, fresh) == JobFlowView::Done(
            Err(PrintErrorView::NotFound(request.printer_share_id)),
        ),
        share.state != ShareState::Published ==> offer_asked(
            request,
            active,
            Some(share),
            t1,
            t2,
            t3,
            fresh,
        ) == JobFlowView::Done(
            Err(PrintErrorView::InvalidState("printer is not publicly shared"@)),
        ),
{
    lemma_counted(request, active, t1);
}

/// A device with eight recent jobs has to wait; jobs of other devices, and
/// jobs that nothing has happened to for half an hour, do not count.
pub proof fn law_busy_devices_wait(
    request: OfferRequestView,
    active: Seq<PrintJobView>,
    t1: TimestampMs,
    t2: TimestampMs,
    fresh: Seq<char>,
)
    ensures
        ({
            let told = JobFlowView::OfferLookup(request).resumed(
                JobReplyView::Job(Ok(None)),
                t1,
                fresh,
            ).resumed(JobReplyView::Active(Ok(active)), t2, fresh);
            if recent_jobs_of(active, request.source_device_id, t1).len() >= 8 {
                told == JobFlowView::Done(
                    Err(PrintErrorView::Conflict("device already has 8 active print jobs"@)),
                )
            } else {
                told.action() == JobActionView::FindShare(request.printer_share_id)
            }
        }),
{
    lemma_counted(request, active, t1);
}

/// A device is asked for under its own name for a job; what it has offered
/// before is given back if printer, document and options are the same, and is
/// a conflict otherwise.
pub proof fn law_offers_are_recognized(
    request: OfferRequestView,
    job: PrintJobView,
    now_ms: TimestampMs,
    fresh: Seq<char>,
)
    ensures
        JobFlowView::OfferLookup(request).action() == JobActionView::FindClientJob(
            request.source_device_id,
            request.client_job_id,
        ),
        JobFlowView::OfferLookup(request).resumed(JobReplyView::Job(Ok(Some(job))), now_ms, fresh)
            == JobFlowView::Done(
            if job.printer_share_id == request.printer_share_id && job.document == request.document
                && job.options == request.options {
                Ok(job)
            } else {
                Err(
                    PrintErrorView::Conflict(
                        "client print job id was reused with different content"@,
                    ),
                )
            },
        ),
{
}

/// What a job of this state and with this failure message is, if it was `job`
/// before and was told so at `now_ms`.
pub open spec fn told(
    job: PrintJobView,
    state: PrintJobState,
    failure_message: Option<Seq<char>>,
    now_ms: TimestampMs,
) -> PrintJobView {
    PrintJobView {
        state,
        failure_message,
        updated_at_ms: if state == job.state {
            job.updated_at_ms
        } else {
            now_ms
        },
        ..job
    }
}

/// The states of a job that the spooler knows of.
pub open spec fn in_spooler(state: PrintJobState) -> bool {
    state == PrintJobState::Queued || state == PrintJobState::Printing || state
        == PrintJobState::Held || state == PrintJobState::Ambiguous
}

/// The owner of a job that is in the spooler learns how it fares there: the
/// job that is stored and given back is printing, complete, cancelled or
/// failed if and only if the spooler says so, a failed one has a message, and
/// one that is held or unknown there is held.
pub proof fn law_refreshed_jobs_follow_the_spooler(
    job: PrintJobView,
    native: Seq<char>,
    status: NativeJobStatus,
    t1: TimestampMs,
    t2: TimestampMs,
    t3: TimestampMs,
    fresh: Seq<char>,
)
    requires
        in_spooler(job.state),
        job.native_job_id == Some(native),
    ensures
        ({
            let asked = JobFlowView::RefreshLookup(job.id, job.source_device_id).resumed(
                JobReplyView::Job(Ok(Some(job))),
                t1,
                fresh,
            );
            let answered = asked.resumed(JobReplyView::Status(Ok(status)), t2, fresh);
            let after = match status {
                NativeJobStatus::Printing => told(job, PrintJobState::Printing, None, t2),
                NativeJobStatus::Completed => told(job, PrintJobState::Completed, None, t2),
                NativeJobStatus::Cancelled => told(
                    job,
                    PrintJobState::Cancelled,
                    job.failure_message,
                    t2,
                ),
                NativeJobStatus::Failed => told(
                    job,
                    PrintJobState::Failed,
                    Some("native print job failed"@),
                    t2,
                ),
                NativeJobStatus::Held | NativeJobStatus::Unknown => told(
                    job,
                    PrintJobState::Held,
                    Some("native print status requires inspection"@),
                    t2,
                ),
                NativeJobStatus::Queued => if job.state == PrintJobState::Held || job.state
                    == PrintJobState::Ambiguous {
                    told(job, PrintJobState::Queued, None, t2)
                } else {
                    job
                },
            };
            &&& asked.action() == JobActionView::QueryNative(native)
            &&& answered.action() == JobActionView::Save(after)
            &&& answered.resumed(JobReplyView::Saved(Ok(())), t3, fresh) == JobFlowView::Done(
                Ok(after),
            )
        }),
{
}

/// A job that the spooler cannot tell about is not asked about: before and
/// after its time there it is given back as it is; in its time there, without
/// the spooler's name for it, it is held unless it was in doubt already.
pub proof fn law_other_jobs_are_not_asked_about(
    job: PrintJobView,
    t1: TimestampMs,
    t2: TimestampMs,
    fresh: Seq<char>,
)
    requires
        !in_spooler(job.state) || job.native_job_id is None,
    ensures
        ({
            let asked = JobFlowView::RefreshLookup(job.id, job.source_device_id).resumed(
                JobReplyView::Job(Ok(Some(job))),
                t1,
                fresh,
            );
            if in_spooler(job.state) && job.state != PrintJobState::Ambiguous {
                asked.action() == JobActionView::Save(
                    told(
                        job,
                        PrintJobState::Held,
                        Some("native print job id is unavailable"@),
                        t1,
                    ),
                )
            } else {
                asked == JobFlowView::Done(Ok(job))
            }
        }),
{
}

/// A job belongs to the device that offered it: that device finds it under its
/// identifier and can refresh it and call it off; for any other there is no
/// such job.
pub proof fn law_jobs_belong_to_their_device(
    job: PrintJobView,
    id: Seq<char>,
    source: Seq<char>,
    now_ms: TimestampMs,
    fresh: Seq<char>,
)
    ensures
        ({
            let found = JobReplyView::Job(Ok(Some(job)));
            let looking = JobFlowView::OwnedLookup(id, source);
            let refreshing = JobFlowView::RefreshLookup(id, source);
            let cancelling = JobFlowView::CancelOwnedLookup(id, source);
            let missing = JobFlowView::Done(Err(PrintErrorView::NotFound(id)));
            &&& looking.action() == JobActionView::FindJob(id)
            &&& refreshing.action() == JobActionView::FindJob(id)
            &&& cancelling.action() == JobActionView::FindJob(id)
            &&& looking.resumed(JobReplyView::Job(Ok(None)), now_ms, fresh) == missing
            &&& if job.source_device_id == source {
                &&& looking.resumed(found, now_ms, fresh) == JobFlowView::Done(Ok(job))
                &&& refreshing.resumed(found, now_ms, fresh) != missing
                &&& cancelling.resumed(found, now_ms, fresh) == JobFlowView::CancelLookup(id)
            } else {
                &&& looking.resumed(found, now_ms, fresh) == missing
                &&& refreshing.resumed(found, now_ms, fresh) == missing
                &&& cancelling.resumed(found, now_ms, fresh) == missing
            }
        }),
{
}

/// A job is called off by its identifier: where it has got to the spooler,
/// there first; a job that has ended otherwise cannot be called off.
pub proof fn law_cancelling_calls_off(
    job: PrintJobView,
    id: Seq<char>,
    t1: TimestampMs,
    t2: TimestampMs,
    t3: TimestampMs,
    fresh: Seq<char>,
)
    ensures
        ({
            let found = JobFlowView::CancelLookup(id).resumed(
                JobReplyView::Job(Ok(Some(job))),
                t1,
                fresh,
            );
            let ended = job.state == PrintJobState::Completed || job.state == PrintJobState::Failed;
            &&& JobFlowView::CancelLookup(id).action() == JobActionView::FindJob(id)
            &&& JobFlowView::CancelLookup(id).resumed(JobReplyView::Job(Ok(None)), t1, fresh)
                == JobFlowView::Done(Err(PrintErrorView::NotFound(id)))
            &&& match job.native_job_id {
                Some(native) => {
                    let called = found.resumed(JobReplyView::Cancelled(Ok(())), t2, fresh);
                    let after = told(job, PrintJobState::Cancelled, job.failure_message, t2);
                    &&& found.action() == JobActionView::CancelNative(native)
                    &&& ended ==> (called matches JobFlowView::Done(result) && result is Err)
                    &&& !ended ==> called.action() == JobActionView::Save(after)
                        && called.resumed(JobReplyView::Saved(Ok(())), t3, fresh)
                        == JobFlowView::Done(Ok(after))
                },
                None => {
                    let after = told(job, PrintJobState::Cancelled, job.failure_message, t1);
                    &&& ended ==> (found matches JobFlowView::Done(result) && result is Err)
                    &&& !ended ==> found.action() == JobActionView::Save(after)
                        && found.resumed(JobReplyView::Saved(Ok(())), t3, fresh)
                        == JobFlowView::Done(Ok(after))
                },
            }
        }),
{
}

/// A document is prepared in order: it starts to arrive once it was offered,
/// has arrived if its digest is the one that was announced, and is then found
/// to be in order. At every step the job is stored in the next state; another
/// digest, or another order, stores nothing.
pub proof fn law_documents_are_prepared_in_order(
    job: PrintJobView,
    id: Seq<char>,
    digest: [u8; 32],
    now_ms: TimestampMs,
    later_ms: TimestampMs,
    fresh: Seq<char>,
)
    ensures
        ({
            let found = JobReplyView::Job(Ok(Some(job)));
            let begin = JobFlowView::PrepareLookup(id, PreparationStep::BeginReceiving).resumed(
                found,
                now_ms,
                fresh,
            );
            let arrived = JobFlowView::PrepareLookup(
                id,
                PreparationStep::DocumentReceived(digest),
            ).resumed(found, now_ms, fresh);
            let checked = JobFlowView::PrepareLookup(id, PreparationStep::MarkValid).resumed(
                found,
                now_ms,
                fresh,
            );
            let receiving = told(job, PrintJobState::Receiving, job.failure_message, now_ms);
            let validating = told(job, PrintJobState::Validating, job.failure_message, now_ms);
            let ready = told(job, PrintJobState::Ready, job.failure_message, now_ms);
            &&& (job.state == PrintJobState::Offered || job.state == PrintJobState::Receiving)
                == (begin.action() is Save)
            &&& begin.action() is Save ==> begin.action() == JobActionView::Save(receiving)
            &&& (job.state == PrintJobState::Receiving && digest@ == job.document.sha256) == (
            arrived.action() is Save)
            &&& arrived.action() is Save ==> arrived.action() == JobActionView::Save(validating)
            &&& job.state == PrintJobState::Receiving && digest@ != job.document.sha256 ==> arrived
                == JobFlowView::Done(
                Err(PrintErrorView::Invalid("document digest does not match"@)),
            )
            &&& (job.state == PrintJobState::Validating || job.state == PrintJobState::Ready) == (
            checked.action() is Save)
            &&& checked.action() is Save ==> checked.action() == JobActionView::Save(ready)
        }),
{
}

/// A job is submitted only while its printer is published, and to the printer
/// that was published under that name.
pub proof fn law_stopped_printers_print_nothing(
    job: PrintJobView,
    id: Seq<char>,
    share: PrinterShareView,
    t1: TimestampMs,
    t2: TimestampMs,
    fresh: Seq<char>,
)
    ensures
        ({
            let looking = JobFlowView::SubmitLookup(id);
            let found = looking.resumed(JobReplyView::Job(Ok(Some(job))), t1, fresh);
            &&& looking.action() == JobActionView::FindJob(id)
            &&& looking.resumed(JobReplyView::Job(Ok(None)), t1, fresh) == JobFlowView::Done(
                Err(PrintErrorView::NotFound(id)),
            )
            &&& found.action() == JobActionView::FindShare(job.printer_share_id)
            &&& found.resumed(JobReplyView::Share(Ok(None)), t2, fresh) == JobFlowView::Done(
                Err(PrintErrorView::NotFound(job.printer_share_id)),
            )
            &&& share.state != ShareState::Published ==> found.resumed(
                JobReplyView::Share(Ok(Some(share))),
                t2,
                fresh,
            ) == JobFlowView::Done(
                Err(PrintErrorView::InvalidState("printer share was stopped before submission"@)),
            )
        }),
{
}

/// A submission that failed may have reached the spooler: the job is stored
/// as in doubt, with a message that names the failure, and the caller is told
/// the same.
pub proof fn law_doubtful_submissions_are_told(
    job: PrintJobView,
    printer: Seq<char>,
    error: PrintErrorView,
    t1: TimestampMs,
    t2: TimestampMs,
    fresh: Seq<char>,
)
    requires
        job.state == PrintJobState::Submitting,
    ensures
        ({
            let message =
                "native spooler submission result is uncertain; inspect the system queue before retrying: "@
                + error.text();
            let failed = JobFlowView::SubmitHand(job, printer).resumed(
                JobReplyView::Submitted(Err(error)),
                t1,
                fresh,
            );
            &&& failed.action() == JobActionView::Save(
                told(job, PrintJobState::Ambiguous, Some(message), t1),
            )
            &&& failed.resumed(JobReplyView::Saved(Ok(())), t2, fresh) == JobFlowView::Done(
                Err(PrintErrorView::Backend(message)),
            )
        }),
{
}

/// Which steps a job can take. It is prepared and submitted in order; from the
/// spooler it is heard of in any order, but it comes into doubt only while it
/// waits, and does not go back from printing to waiting; and until it has
/// ended it can be cancelled and can fail.
pub proof fn law_steps_of_a_job(
    job: PrintJobView,
    next: PrintJobState,
    now_ms: TimestampMs,
)
    ensures
        ({
            let from = job.state;
            let ends = next == PrintJobState::Cancelled || next == PrintJobState::Failed;
            let ended = from == PrintJobState::Completed || from == PrintJobState::Cancelled || from
                == PrintJobState::Failed;
            let possible = {
                ||| from == next
                ||| ends && !ended
                ||| from == PrintJobState::Offered && next == PrintJobState::Receiving
                ||| from == PrintJobState::Receiving && next == PrintJobState::Validating
                ||| from == PrintJobState::Validating && next == PrintJobState::Ready
                ||| from == PrintJobState::Ready && next == PrintJobState::Submitting
                ||| from == PrintJobState::Submitting && (next == PrintJobState::Queued || next
                    == PrintJobState::Ambiguous)
                ||| in_spooler(from) && next == PrintJobState::Completed
                ||| in_spooler(from) && in_spooler(next) && (next == PrintJobState::Ambiguous ==> from
                    == PrintJobState::Queued) && !(from == PrintJobState::Printing && next
                    == PrintJobState::Queued)
            };
            match job.moved(next, now_ms) {
                Ok(after) => possible && after == told(job, next, job.failure_message, now_ms),
                Err(error) => !possible && error is InvalidState,
            }
        }),
{
}

} // verus!
