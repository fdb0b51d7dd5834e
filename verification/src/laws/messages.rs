//! What is accepted from other devices, and how the rest is refused.
use vstd::prelude::*;

use crate::application::share_service::{publication, ShareFlowView};
use crate::domain::TimestampMs;
use crate::domain::capability::{media_size, MediaSizeView, PrinterCapabilitiesView};
use crate::domain::id::{parsed_id, valid_id};
use crate::domain::job::{
    PageRange, PrintDocumentView, PrintJobState, PrintJobView, PrintOptionsView,
};
use crate::domain::printer::LocalPrinterView;
use crate::domain::share::{PrinterShareView, ShareState};
use crate::error::PrintErrorView;
use crate::infrastructure::messages::{
    ErrorCode, PrintClientFrameView, PrintCreateJobRequestView, PrintDocumentOpenView,
    PrintJobInfoView, PrintJobResultView, PrintPrinterCapabilitiesView, PrintPublishedPrinterView,
    PrintServerFrameView, ServerBodyView, WireJobState,
};
use crate::infrastructure::platform::commands::queue_name_check;
use crate::infrastructure::platform::render::{document_check, first_bad_range};
use crate::infrastructure::quic::client::{creation_step, SubmissionKind};
use crate::infrastructure::quic::replies::{
    decoded_job, remote_job, success_status, RemotePrintJobView,
};
use crate::infrastructure::quic::server::{connection_step, late_frame, ConnectionStepView};
use crate::infrastructure::quic::upload::{upload_start, UploadFlowView};
use crate::infrastructure::spool::{job_id_check, reception_start};
use crate::infrastructure::wire::{
    decoded_capabilities, decoded_document, decoded_offer, decoded_options, decoded_printer,
    usable_size, usable_sizes, CreateJobOfferView,
};
use crate::text::{decimal_text, is_blank};
use crate::unique::is_uuid_text;

verus! {

/// An offer is understood exactly if it has a document with a digest of 32
/// bytes and options whose modes are known, all of them in order, and names
/// the job and the share; it is then what was said.
pub proof fn law_offers_are_understood(request: PrintCreateJobRequestView)
    ensures
        ({
            let complete = request.document is Some && request.options is Some
                && request.document->Some_0.sha256.len() == 32 && request.options->Some_0.color_mode
                is Some && request.options->Some_0.duplex_mode is Some
                && request.options->Some_0.orientation is Some;
            let d = request.document->Some_0;
            let o = request.options->Some_0;
            let document = PrintDocumentView {
                name: d.name,
                media_type: d.media_type,
                size_bytes: d.size_bytes,
                sha256: d.sha256,
            };
            let options = PrintOptionsView {
                copies: o.copies,
                color_mode: o.color_mode->Some_0,
                duplex_mode: o.duplex_mode->Some_0,
                orientation: o.orientation->Some_0,
                media_name: o.media_name,
                page_ranges: o.page_ranges,
                collate: o.collate,
            };
            let fine = complete && document.validation() is Ok && options.validation() is Ok
                && valid_id(request.client_job_id) && valid_id(request.printer_share_id);
            &&& fine ==> decoded_offer(request) == Ok::<CreateJobOfferView, PrintErrorView>(
                CreateJobOfferView {
                    client_job_id: request.client_job_id,
                    printer_share_id: request.printer_share_id,
                    document,
                    options,
                },
            )
            &&& !fine ==> decoded_offer(request) is Err
        }),
{
}

/// Capabilities are understood exactly if every sheet has a name and sides and
/// every mode is known, and if they offer anything; they are then what was
/// said.
pub proof fn law_capabilities_are_understood(m: PrintPrinterCapabilitiesView, i: int)
    ensures
        ({
            let fine = (forall|k: int|
                0 <= k < m.media_sizes.len() ==> !is_blank((#[trigger] m.media_sizes[k]).name)
                    && m.media_sizes[k].width_microns > 0 && m.media_sizes[k].height_microns > 0)
                && (forall|k: int|
                0 <= k < m.color_modes.len() ==> (#[trigger] m.color_modes[k]) is Some) && (forall|
                k: int,
            |
                0 <= k < m.duplex_modes.len() ==> (#[trigger] m.duplex_modes[k]) is Some)
                && m.media_sizes.len() > 0 && m.max_copies > 0 && m.accepted_document_types.len()
                > 0;
            &&& decoded_capabilities(m) is Ok <==> fine
            &&& decoded_capabilities(m) matches Ok(c) ==> {
                &&& c.media_sizes == m.media_sizes
                &&& c.color_modes.len() == m.color_modes.len()
                &&& c.duplex_modes.len() == m.duplex_modes.len()
                &&& 0 <= i < m.color_modes.len() ==> m.color_modes[i] == Some(c.color_modes[i])
                &&& 0 <= i < m.duplex_modes.len() ==> m.duplex_modes[i] == Some(c.duplex_modes[i])
                &&& c.resolutions == m.resolutions
                &&& c.max_copies == m.max_copies
                &&& c.supports_page_ranges == m.supports_page_ranges
                &&& c.supports_collation == m.supports_collation
                &&& c.accepted_document_types == m.accepted_document_types
            }
        }),
{
    let sizes = m.media_sizes;
    if forall|k: int|
        0 <= k < sizes.len() ==> !is_blank((#[trigger] sizes[k]).name) && sizes[k].width_microns > 0
            && sizes[k].height_microns > 0 {
        assert(usable_sizes(sizes)) by {
            assert forall|k: int| 0 <= k < sizes.len() implies
                usable_size(#[trigger] sizes[k]) by {
                assert(!is_blank(sizes[k].name));
            }
        }
    } else if usable_sizes(sizes) {
        assert forall|k: int| 0 <= k < sizes.len() implies !is_blank((#[trigger] sizes[k]).name)
            && sizes[k].width_microns > 0 && sizes[k].height_microns > 0 by {
            assert(usable_size(sizes[k]));
        }
    }
}

/// A printer of another device is understood exactly if its share has a name
/// and its capabilities are understood; it is then what was said.
pub proof fn law_printers_are_understood(
    device: Seq<char>,
    device_name: Seq<char>,
    printer: PrintPublishedPrinterView,
)
    ensures
        ({
            let read = decoded_printer(device, device_name, printer);
            &&& read is Ok <==> valid_id(printer.share_id) && (printer.capabilities matches Some(m)
                && decoded_capabilities(m) is Ok)
            &&& read matches Ok(p) ==> {
                &&& p.source_device_id == device && p.source_device_name == device_name
                &&& p.share_id == printer.share_id && p.display_name == printer.display_name
                &&& p.status == printer.state
                &&& p.capability_revision == printer.capability_revision
                &&& decoded_capabilities(printer.capabilities->Some_0) == Ok::<
                    PrinterCapabilitiesView,
                    PrintErrorView,
                >(p.capabilities)
            }
        }),
{
}

/// How offers that are not understood are refused.
pub proof fn law_refused_offers(request: PrintCreateJobRequestView)
    ensures
        request.document is None ==> decoded_offer(request) == Err::<
            CreateJobOfferView,
            PrintErrorView,
        >(PrintErrorView::Invalid("print job document is missing"@)),
        (request.document matches Some(d) && d.sha256.len() != 32) ==> decoded_offer(request)
            == Err::<CreateJobOfferView, PrintErrorView>(
            PrintErrorView::Invalid("print document SHA-256 must be 32 bytes"@),
        ),
{
}

/// How names in messages that are no identifiers are refused.
pub proof fn law_refused_names(
    request: PrintCreateJobRequestView,
    device: Seq<char>,
    device_name: Seq<char>,
    printer: PrintPublishedPrinterView,
    job: PrintJobInfoView,
    state: PrintJobState,
)
    ensures
        decoded_document(request.document) is Ok && decoded_options(request.options) is Ok
            && !valid_id(request.client_job_id) ==> decoded_offer(request) == Err::<
            CreateJobOfferView,
            PrintErrorView,
        >(PrintErrorView::Invalid("client job id"@ + " must contain 1 to 512 characters"@)),
        decoded_document(request.document) is Ok && decoded_options(request.options) is Ok
            && valid_id(request.client_job_id) && !valid_id(request.printer_share_id)
            ==> decoded_offer(request) == Err::<CreateJobOfferView, PrintErrorView>(
            PrintErrorView::Invalid("printer share id"@ + " must contain 1 to 512 characters"@),
        ),
        !valid_id(printer.share_id) ==> (decoded_printer(
            device,
            device_name,
            printer,
        ) matches Err(error) && error == PrintErrorView::Invalid(
            "printer share id"@ + " must contain 1 to 512 characters"@,
        )),
        job.state == WireJobState::Known(state) && !valid_id(job.job_id) ==> (decoded_job(
            job,
        ) matches Err(error) && error == PrintErrorView::Invalid(
            "print job id"@ + " must contain 1 to 512 characters"@,
        )),
        !(job.state is Known) ==> (decoded_job(job) matches Err(error) && error
            == PrintErrorView::Invalid("invalid remote print job state"@)),
{
}

/// How answers that tell of no job, or of one that cannot be gone on with, are
/// reported.
pub proof fn law_refused_answers(
    request_id: u64,
    result: PrintJobResultView,
    job: PrintJobInfoView,
    state: PrintJobState,
    kind: SubmissionKind,
)
    requires
        result.status matches Some(status) && status.code == ErrorCode::Success,
    ensures
        ({
            let frame = PrintServerFrameView { request_id, body: ServerBodyView::JobResult(result) };
            &&& result.job is None ==> remote_job(frame, request_id) == Err::<
                RemotePrintJobView,
                PrintErrorView,
            >(PrintErrorView::Backend("print job is missing"@))
            &&& result.job is None ==> (creation_step(frame, request_id, kind) matches Err(error)
                && error == PrintErrorView::Backend("print job id is missing"@))
            &&& result.job == Some(job) && valid_id(job.job_id) && job.state
                == WireJobState::Known(state) && (state == PrintJobState::Validating || state
                == PrintJobState::Ready || state == PrintJobState::Submitting || state
                == PrintJobState::Held || state == PrintJobState::Cancelled || state
                == PrintJobState::Failed || state == PrintJobState::Ambiguous) ==> (creation_step(
                frame,
                request_id,
                kind,
            ) matches Err(error) && error == PrintErrorView::InvalidState(
                "remote print job cannot be "@ + kind.verb() + " in state "@ + state.label(),
            ))
            &&& result.job == Some(job) && valid_id(job.job_id) && job.state
                == WireJobState::Undefined ==> (creation_step(
                frame,
                request_id,
                kind,
            ) matches Err(error) && error == PrintErrorView::Backend(
                "remote print job state is invalid"@,
            ))
        }),
{
}

/// How documents, options, sheets and printers that are not in order are
/// refused.
pub proof fn law_refused_values(
    document: PrintDocumentView,
    options: PrintOptionsView,
    printer: LocalPrinterView,
    label: Seq<char>,
    value: Seq<char>,
    size: MediaSizeView,
)
    ensures
        is_blank(document.name) ==> document.validation() == Err::<(), PrintErrorView>(
            PrintErrorView::Invalid("invalid document name"@),
        ),
        options.copies == 0 || options.copies > 100 ==> options.validation() == Err::<
            (),
            PrintErrorView,
        >(PrintErrorView::Invalid("invalid number of copies"@)),
        1 <= options.copies <= 100 && is_blank(options.media_name) ==> options.validation() == Err::<
            (),
            PrintErrorView,
        >(PrintErrorView::Invalid("print media name is empty"@)),
        is_blank(printer.display_name) ==> printer.validation() == Err::<(), PrintErrorView>(
            PrintErrorView::Invalid("printer name is empty"@),
        ),
        printer.capabilities.media_sizes.len() == 0 ==> printer.capabilities.validation() == Err::<
            (),
            PrintErrorView,
        >(PrintErrorView::Invalid("printer must advertise at least one media size"@)),
        printer.capabilities.media_sizes.len() > 0 && printer.capabilities.max_copies == 0
            ==> printer.capabilities.validation() == Err::<(), PrintErrorView>(
            PrintErrorView::Invalid("printer max copies must be positive"@),
        ),
        printer.capabilities.media_sizes.len() > 0 && printer.capabilities.max_copies > 0
            && printer.capabilities.accepted_document_types.len() == 0
            ==> printer.capabilities.validation() == Err::<(), PrintErrorView>(
            PrintErrorView::Invalid("printer must accept at least one document type"@),
        ),
        !valid_id(value) ==> parsed_id(label, value) == Err::<Seq<char>, PrintErrorView>(
            PrintErrorView::Invalid(label + " must contain 1 to 512 characters"@),
        ),
        size.width_microns == 0 ==> media_size(size.name, size.width_microns, size.height_microns)
            == Err::<MediaSizeView, PrintErrorView>(
            PrintErrorView::Invalid("invalid media size"@),
        ),
{
}

/// How steps that a share cannot take are refused.
pub proof fn law_refused_sharing(
    share: PrinterShareView,
    name: Seq<char>,
    capabilities: PrinterCapabilitiesView,
    id: Seq<char>,
    now_ms: TimestampMs,
)
    ensures
        share.state == ShareState::Removed ==> share.resumed(now_ms) == Err::<
            PrinterShareView,
            PrintErrorView,
        >(PrintErrorView::InvalidState("a removed printer share cannot be resumed"@)),
        share.state == ShareState::Removed ==> share.suspended(now_ms) == Err::<
            PrinterShareView,
            PrintErrorView,
        >(PrintErrorView::InvalidState("a removed printer share cannot be suspended"@)),
        capabilities.validation() is Ok && is_blank(name) ==> PrinterShareView::update_validation(
            name,
            capabilities,
        ) == Err::<(), PrintErrorView>(PrintErrorView::Invalid("printer name is empty"@)),
        publication(false, id) == ShareFlowView::Done(
            Err(
                PrintErrorView::Backend(
                    "sharing local printers is not supported on this operating system yet"@,
                ),
            ),
        ),
{
}

/// How names, documents and requests that cannot be served are refused.
pub proof fn law_refused_requests(
    root: Seq<char>,
    name: Seq<char>,
    source: Seq<char>,
    open: PrintDocumentOpenView,
    job: PrintJobView,
    frame: PrintClientFrameView,
    page_count: u32,
    range: PageRange,
    ranges: Seq<PageRange>,
)
    ensures
        queue_name_check(name) matches Err(error) ==> error == PrintErrorView::Invalid(
            "queue name may contain only letters, digits, '-' and '_'"@,
        ),
        !valid_id(open.job_id) ==> upload_start(source, open) == UploadFlowView::Failed(
            PrintErrorView::Invalid("print job id"@ + " must contain 1 to 512 characters"@),
        ),
        !is_uuid_text(name) ==> job_id_check(name) == Err::<(), PrintErrorView>(
            PrintErrorView::Invalid("print job id is not a UUID"@),
        ),
        is_uuid_text(job.id) ==> (reception_start(root, job, true) matches Err(error) && error
            == PrintErrorView::Conflict("document for job "@ + job.id + " is already ready"@)),
        frame.request_id == 0 ==> (connection_step(Ok(frame)) matches ConnectionStepView::Reply(
            reply,
        ) && (reply.body matches ServerBodyView::Status(status) && status.message
            == "print request_id must be non-zero and timeout_ms must be in range"@)),
        late_frame(frame.request_id).body matches ServerBodyView::Status(status) && status.message
            == "print request deadline exceeded"@,
        document_check(true, page_count, ranges) == Some(
            PrintErrorView::Invalid("password-protected PDF documents are not supported"@),
        ),
        page_count == 0 || page_count > 2_000 ==> document_check(false, page_count, ranges) == Some(
            PrintErrorView::Invalid(
                "PDF page count "@ + decimal_text(page_count as nat)
                    + " is outside the supported range"@,
            ),
        ),
        1 <= page_count <= 2_000 && first_bad_range(ranges, page_count) == Some(range)
            ==> document_check(false, page_count, ranges) == Some(
            PrintErrorView::Invalid(
                "page range "@ + decimal_text(range.first as nat) + "-"@ + decimal_text(
                    range.last as nat,
                ) + " is outside the PDF"@,
            ),
        ),
        success_status().retry_after_ms == 0,
        SubmissionKind::Bytes.verb() == "uploaded"@,
        SubmissionKind::File.verb() == "submitted"@,
{
}

} // verus!
