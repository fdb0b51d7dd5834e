//! What devices ask of each other and tell each other.
use vstd::prelude::*;

use crate::domain::TimestampMs;
use crate::domain::id::valid_id;
use crate::domain::job::{PrintDocumentView, PrintJobState, PrintJobView, PrintOptionsView};
use crate::domain::printer::{PrinterStatus, PublishedPrinterView};
use crate::error::{IoErrorKind, PrintErrorView};
use crate::infrastructure::messages::{
    ClientBodyView, ErrorCode, PrintClientFrameView, PrintJobResultView, PrintPublishedPrinterView,
    PrintServerFrameView, RecoveryAction, ServerBodyView, StatusView, WireJobState,
};
use crate::infrastructure::quic::client::{
    creation_step, opening, pdf_document, size_check, submission, SubmissionKind,
    SubmissionStepView,
};
use crate::infrastructure::quic::printers::{
    after_answers, offline, printer_answer, session_choice, DeviceAnswerView, RemotePrinterView,
    SessionChoice,
};
use crate::infrastructure::quic::replies::{
    answer_to, failure_status, following, job_answer, request_number, status_check, success_status,
    ticket_check,
};
use crate::infrastructure::quic::server::{
    connection_step, feature_check, started, ConnectionStepView, RequestStageView, ServerActionView,
    ServerContextView, ServerReplyView,
};
use crate::infrastructure::quic::tickets::{
    issued, permits, takes_upload, TicketMap, UploadTicketView,
};
use crate::infrastructure::spool::SpoolPathView;
use crate::infrastructure::wire::{decoded_offer, job_message, printer_message, CreateJobOfferView};
use crate::text::{hex_text, is_blank};
use crate::unique::is_uuid_text;

verus! {

/// What is said of a failure: which kind it is and why, and what to do about
/// it. A busy device is asked again later, a conflict is looked into, and a
/// wrong request is changed.
pub proof fn law_failures_say_what_to_do(code: ErrorCode, message: Seq<char>)
    ensures
        ({
            let status = failure_status(code, message);
            let later = code == ErrorCode::Busy || code == ErrorCode::ResourceExhausted || code
                == ErrorCode::DeadlineExceeded || code == ErrorCode::Unavailable;
            &&& status.code == code && status.message == message
            &&& status.retryable == later
            &&& status.retry_after_ms == 0 && status.error_id.len() == 0
            &&& later <==> status.recovery_action == RecoveryAction::RetryWithBackoff
            &&& code == ErrorCode::Conflict <==> status.recovery_action == RecoveryAction::Refresh
            &&& (code == ErrorCode::InvalidArgument || code == ErrorCode::FailedPrecondition)
                <==> status.recovery_action == RecoveryAction::ChangeRequest
        }),
        ({
            let status = success_status();
            &&& status.code == ErrorCode::Success && status.message.len() == 0
            &&& !status.retryable && status.recovery_action == RecoveryAction::Nothing
        }),
{
}

/// A request has succeeded exactly if its status says so; a failure is told
/// with its message, if it has one.
pub proof fn law_status_is_understood(status: StatusView)
    ensures
        status.code == ErrorCode::Success <==> status_check(Some(status)) is Ok,
        status.code != ErrorCode::Success && status.message.len() > 0 ==> status_check(Some(status))
            == Err::<(), PrintErrorView>(PrintErrorView::Backend(status.message)),
        status_check(None) is Err,
        status.code != ErrorCode::Success && status.message.len() == 0 ==> status_check(
            Some(status),
        ) == Err::<(), PrintErrorView>(PrintErrorView::Backend("print request failed"@)),
{
}

/// An answer counts only for the request with its number.
pub proof fn law_answers_belong_to_requests(frame: PrintServerFrameView, request_id: u64)
    ensures
        frame.request_id == request_id ==> answer_to(frame, request_id) == Ok::<
            ServerBodyView,
            PrintErrorView,
        >(frame.body),
        frame.request_id != request_id ==> (answer_to(frame, request_id) matches Err(error)
            && error is Invalid),
{
}

/// Requests are numbered from one on, never with zero.
pub proof fn law_requests_are_numbered(n: u64)
    ensures
        request_number(1) == 1,
        0 < n ==> request_number(n) == n,
        0 < n < u64::MAX ==> request_number(following(n)) == n + 1,
        request_number(following(u64::MAX)) == 1,
{
}

/// A permission to upload is one that is there and ends at some time.
pub proof fn law_tickets_are_needed(result: PrintJobResultView)
    ensures
        result.upload_ticket.len() > 0 && result.upload_ticket_expires_at_ms > 0 ==> ticket_check(
            result,
        ) == Ok::<Seq<u8>, PrintErrorView>(result.upload_ticket),
        !(result.upload_ticket.len() > 0 && result.upload_ticket_expires_at_ms > 0)
            ==> ticket_check(result) is Err,
{
}

/// Only the answer about a job that succeeded tells of a job.
pub proof fn law_job_answers(result: PrintJobResultView, status: StatusView)
    ensures
        (result.status matches Some(s) && s.code == ErrorCode::Success) ==> job_answer(
            ServerBodyView::JobResult(result),
        ) == Ok::<PrintJobResultView, PrintErrorView>(result),
        !(result.status matches Some(s) && s.code == ErrorCode::Success) ==> job_answer(
            ServerBodyView::JobResult(result),
        ) is Err,
        job_answer(ServerBodyView::Status(status)) is Err,
        job_answer(ServerBodyView::Other) is Err,
{
}

/// A job whose document waits to be sent is uploaded under its name with the
/// permission that came with it; one that the other device has or has printed
/// is done; any other state is refused.
pub proof fn law_creation_is_understood(
    result: PrintJobResultView,
    request_id: u64,
    kind: SubmissionKind,
)
    requires
        result.status matches Some(s) && s.code == ErrorCode::Success,
        result.job matches Some(job) && valid_id(job.job_id),
        result.upload_ticket.len() > 0,
        result.upload_ticket_expires_at_ms > 0,
    ensures
        ({
            let frame = PrintServerFrameView {
                request_id,
                body: ServerBodyView::JobResult(result),
            };
            let job = result.job->Some_0;
            let step = creation_step(frame, request_id, kind);
            &&& (job.state == WireJobState::Known(PrintJobState::Offered) || job.state
                == WireJobState::Known(PrintJobState::Receiving)) ==> step == Ok::<
                SubmissionStepView,
                PrintErrorView,
            >(SubmissionStepView::Upload { job_id: job.job_id, ticket: result.upload_ticket })
            &&& (job.state == WireJobState::Known(PrintJobState::Queued) || job.state
                == WireJobState::Known(PrintJobState::Printing) || job.state == WireJobState::Known(
                PrintJobState::Completed,
            )) ==> step == Ok::<SubmissionStepView, PrintErrorView>(
                SubmissionStepView::Accepted(job.job_id),
            )
            &&& (job.state matches WireJobState::Known(state) && (state
                == PrintJobState::Validating || state == PrintJobState::Ready || state
                == PrintJobState::Submitting || state == PrintJobState::Held || state
                == PrintJobState::Cancelled || state == PrintJobState::Failed || state
                == PrintJobState::Ambiguous)) ==> step is Err
            &&& job.state == WireJobState::Undefined || job.state == WireJobState::Unspecified
                ==> step is Err
        }),
{
}

/// A document is offered for the printer's share, under the name that the
/// client gives, with its own name, kind, size and digest and with its
/// options; what makes no sense is not sent.
pub proof fn law_submissions_say_what_to_print(
    remote: RemotePrinterView,
    client_job_id: Seq<char>,
    name: Seq<char>,
    size: u64,
    digest: Seq<u8>,
    options: PrintOptionsView,
)
    ensures
        ({
            let document = pdf_document(name, size, digest);
            let sent = submission(remote, client_job_id, document, options);
            &&& document.name == name && document.media_type == "application/pdf"@
            &&& document.size_bytes == size && document.sha256 == digest
            &&& (!is_blank(name) && vstd::utf8::encode_utf8(name).len() <= 512 && 1 <= size
                <= 524_288_000 && 1 <= options.copies <= 100 && !is_blank(options.media_name) && (
            forall|i: int|
                0 <= i < options.page_ranges.len() ==> 1 <= (
                #[trigger] options.page_ranges[i]).first <= options.page_ranges[i].last)) == (sent
                is Ok)
            &&& sent matches Ok(s) ==> {
                &&& s.document == document
                &&& s.request.client_job_id == client_job_id
                &&& s.request.printer_share_id == remote.printer.share_id
                &&& s.request.document matches Some(d) && d.name == name && d.media_type
                    == "application/pdf"@ && d.size_bytes == size && d.sha256 == digest
                &&& s.request.options matches Some(o) && o.copies == options.copies && o.color_mode
                    == Some(options.color_mode) && o.duplex_mode == Some(options.duplex_mode)
                    && o.orientation == Some(options.orientation) && o.media_name
                    == options.media_name && o.page_ranges == options.page_ranges && o.collate
                    == options.collate
            }
        }),
{
    let ranges = options.page_ranges;
    if options.validation() is Ok {
        assert forall|i: int| 0 <= i < ranges.len() implies 1 <= (#[trigger] ranges[i]).first
            <= ranges[i].last by {
            assert(crate::domain::job::valid_range(ranges[i]));
        }
    }
}

/// An upload begins with the job's name, the size and digest of its document,
/// and the permission; a document over the limit is not sent.
pub proof fn law_uploads_begin(
    job_id: Seq<char>,
    document: PrintDocumentView,
    ticket: Seq<u8>,
    size: u64,
    limit: u64,
)
    ensures
        opening(job_id, document, ticket).job_id == job_id,
        opening(job_id, document, ticket).size_bytes == document.size_bytes,
        opening(job_id, document, ticket).sha256 == document.sha256,
        opening(job_id, document, ticket).upload_ticket == ticket,
        size_check(size, limit) is Ok <==> size <= limit,
{
}

/// A message about a printer, its capabilities or a job says of it what it is.
pub proof fn law_messages_say_what_is(
    printer: PublishedPrinterView,
    job: PrintJobView,
)
    ensures
        ({
            let m = printer_message(printer);
            let c = printer.capabilities;
            &&& m.share_id == printer.share_id && m.display_name == printer.display_name
            &&& m.state == printer.status && m.capability_revision == printer.capability_revision
            &&& m.capabilities matches Some(s) && s.media_sizes == c.media_sizes && s.resolutions
                == c.resolutions && s.max_copies == c.max_copies && s.supports_page_ranges
                == c.supports_page_ranges && s.supports_collation == c.supports_collation
                && s.accepted_document_types == c.accepted_document_types && s.color_modes.len()
                == c.color_modes.len() && s.duplex_modes.len() == c.duplex_modes.len() && (forall|
                i: int,
            |
                0 <= i < c.color_modes.len() ==> #[trigger] s.color_modes[i] == Some(
                    c.color_modes[i],
                )) && (forall|i: int|
                0 <= i < c.duplex_modes.len() ==> #[trigger] s.duplex_modes[i] == Some(
                    c.duplex_modes[i],
                ))
        }),
        ({
            let m = job_message(job);
            &&& m.job_id == job.id && m.client_job_id == job.client_job_id
            &&& m.printer_share_id == job.printer_share_id
            &&& m.state == WireJobState::Known(job.state)
            &&& m.failure_message == job.failure_message
            &&& m.created_at_ms == job.created_at_ms && m.updated_at_ms == job.updated_at_ms
        }),
{
}

/// A stream is served if it is for printing in a version that both know; a
/// request if it has a number and asks for no more than two minutes. At the
/// end of a stream nothing is left to do.
pub proof fn law_connections_are_served(
    feature_id: Seq<char>,
    version_agreed: bool,
    frame: PrintClientFrameView,
    message: Seq<char>,
)
    ensures
        feature_check(feature_id, version_agreed) is Ok <==> feature_id == "arcrelay.print"@
            && version_agreed,
        frame.request_id != 0 && 1 <= frame.timeout_ms <= 120_000 <==> connection_step(Ok(frame))
            == ConnectionStepView::Serve(frame),
        connection_step(Err(PrintErrorView::Io(IoErrorKind::UnexpectedEof, message)))
            == ConnectionStepView::Close,
        connection_step(Err(PrintErrorView::Backend(message))) == ConnectionStepView::Fail(
            PrintErrorView::Backend(message),
        ),
{
}

/// Requests lead to what they ask for, on behalf of the device that sent them:
/// a list of this device's printers, an offer of a job as it was described, or
/// a look at a job or its cancellation.
pub proof fn law_requests_are_carried_out(
    context: ServerContextView,
    request_id: u64,
    offer: CreateJobOfferView,
    id: Seq<char>,
    body: ClientBodyView,
)
    requires
        valid_id(context.device_id),
        valid_id(id),
    ensures
        started(context, request_id, ClientBodyView::ListPrinters).action(context)
            == ServerActionView::ListPublished(context.device_id),
        started(context, request_id, ClientBodyView::GetJob(id)).action(context)
            == ServerActionView::Refresh(id, context.source),
        started(context, request_id, ClientBodyView::CancelJob(id)).action(context)
            == ServerActionView::Cancel(id, context.source),
        body matches ClientBodyView::CreateJob(request) ==> match decoded_offer(request) {
            Ok(offer) => started(context, request_id, body).action(context)
                == ServerActionView::Offer(context.source, offer),
            Err(error) => started(context, request_id, body) matches RequestStageView::Answered(
                frame,
            ) && (frame.body matches ServerBodyView::JobResult(result) && (
            result.status matches Some(status) && status.code == ErrorCode::InvalidArgument
                && status.message == error.text())),
        },
        started(context, request_id, ClientBodyView::Other) matches RequestStageView::Answered(
            frame,
        ) && (frame.body matches ServerBodyView::Status(status) && status.code
            == ErrorCode::Unsupported),
{
}

/// A job that was looked up or called off is told of as it is; a job that was
/// not found, or could not be called off, is told of as such.
pub proof fn law_jobs_are_told_of(
    context: ServerContextView,
    request_id: u64,
    id: Seq<char>,
    job: PrintJobView,
    error: PrintErrorView,
)
    ensures
        ({
            let told = RequestStageView::Answered(
                PrintServerFrameView {
                    request_id,
                    body: ServerBodyView::JobResult(
                        PrintJobResultView {
                            status: Some(success_status()),
                            job: Some(job_message(job)),
                            upload_ticket: seq![],
                            upload_ticket_expires_at_ms: 0,
                        },
                    ),
                },
            );
            let refreshing = RequestStageView::Refreshing(id);
            let cancelling = RequestStageView::Cancelling(id);
            &&& refreshing.resumed(context, request_id, ServerReplyView::Job(Ok(job))) == told
            &&& cancelling.resumed(context, request_id, ServerReplyView::Job(Ok(job))) == told
            &&& refreshing.resumed(context, request_id, ServerReplyView::Job(Err(error)))
                == failed_with(request_id, ErrorCode::NotFound, error.text())
            &&& cancelling.resumed(context, request_id, ServerReplyView::Job(Err(error)))
                == failed_with(request_id, ErrorCode::FailedPrecondition, error.text())
        }),
{
}

/// The answer that a request about a job has failed.
pub open spec fn failed_with(request_id: u64, code: ErrorCode, message: Seq<char>) -> RequestStageView {
    RequestStageView::Answered(
        PrintServerFrameView {
            request_id,
            body: ServerBodyView::JobResult(
                PrintJobResultView {
                    status: Some(failure_status(code, message)),
                    job: None,
                    upload_ticket: seq![],
                    upload_ticket_expires_at_ms: 0,
                },
            ),
        },
    )
}

/// What becomes of an offer that was taken: a job whose document is there but
/// not yet checked is checked, one that is ready is submitted from the place
/// of its document, and any other gets a permission to upload, if it can have
/// one; a refused offer is answered with the reason.
pub proof fn law_offers_are_followed_up(
    context: ServerContextView,
    request_id: u64,
    offer: CreateJobOfferView,
    job: PrintJobView,
    after: PrintJobView,
    ticket: UploadTicketView,
    error: PrintErrorView,
)
    requires
        is_uuid_text(job.id),
    ensures
        ({
            let offering = RequestStageView::Offering(offer);
            let taken = offering.resumed(context, request_id, ServerReplyView::Job(Ok(job)));
            let path = SpoolPathView {
                root: context.spool,
                area: crate::infrastructure::spool::SpoolArea::Ready,
                file_name: job.id + ".document"@,
            };
            &&& offering.resumed(context, request_id, ServerReplyView::Job(Err(error)))
                == failed_with(request_id, ErrorCode::FailedPrecondition, error.text())
            &&& taken.action(context) == if job.state == PrintJobState::Validating {
                ServerActionView::MarkValid(job.id)
            } else if job.state == PrintJobState::Ready {
                ServerActionView::DocumentExists(path)
            } else {
                ServerActionView::IssueTicket(context.source, job)
            }
            &&& job.state == PrintJobState::Ready ==> {
                let there = taken.resumed(context, request_id, ServerReplyView::Exists(Ok(true)));
                let printed = there.resumed(context, request_id, ServerReplyView::Job(Ok(after)));
                &&& there.action(context) == ServerActionView::Submit(job.id, path)
                &&& printed.action(context) == ServerActionView::DeleteReady(job.id)
                &&& printed.resumed(context, request_id, ServerReplyView::Deleted).action(context)
                    == ServerActionView::IssueTicket(context.source, after)
                &&& taken.resumed(context, request_id, ServerReplyView::Exists(Ok(false)))
                    == failed_with(
                    request_id,
                    ErrorCode::Internal,
                    PrintErrorView::InvalidState(
                        "ready print document is missing from the spool"@,
                    ).text(),
                )
                &&& there.resumed(context, request_id, ServerReplyView::Job(Err(error)))
                    == failed_with(request_id, ErrorCode::Internal, error.text())
            }
            &&& RequestStageView::Validating(job.id).resumed(
                context,
                request_id,
                ServerReplyView::Job(Ok(job)),
            ).action(context) == ServerActionView::DocumentExists(path)
            &&& RequestStageView::Ticketing(job).resumed(
                context,
                request_id,
                ServerReplyView::Ticket(Some(ticket)),
            ) == RequestStageView::Answered(
                PrintServerFrameView {
                    request_id,
                    body: ServerBodyView::JobResult(
                        PrintJobResultView {
                            status: Some(success_status()),
                            job: Some(job_message(job)),
                            upload_ticket: ticket.token,
                            upload_ticket_expires_at_ms: ticket.expires_at_ms,
                        },
                    ),
                },
            )
        }),
{
}

/// A list of printers holds this device's name and every printer that it
/// publishes, in order.
pub proof fn law_printers_are_told_of(
    context: ServerContextView,
    request_id: u64,
    id: Seq<char>,
    printers: Seq<PublishedPrinterView>,
    i: int,
)
    ensures
        RequestStageView::Listing(id).resumed(
            context,
            request_id,
            ServerReplyView::Published(Ok(printers)),
        ) matches RequestStageView::Answered(frame) && (
        frame.body matches ServerBodyView::PrinterList(list) && {
            &&& frame.request_id == request_id
            &&& list.status == Some(success_status())
            &&& list.source_device_id == id
            &&& list.source_device_name == context.device_name
            &&& list.printers.len() == printers.len()
            &&& 0 <= i < printers.len() ==> list.printers[i] == printer_message(printers[i])
        }),
{
}

/// A permission is given for five minutes, and only for a job whose document
/// has not arrived; while it holds, asking again gives the same one.
pub proof fn law_tickets_hold_five_minutes(
    tickets: TicketMap,
    key: (Seq<char>, Seq<char>),
    token: Seq<u8>,
    other: Seq<u8>,
    now_ms: TimestampMs,
    later_ms: TimestampMs,
    state: PrintJobState,
)
    ensures
        takes_upload(state) <==> state == PrintJobState::Offered || state
            == PrintJobState::Receiving,
        !tickets.dom().contains(key) && now_ms <= i64::MAX - 300_000 ==> issued(
            tickets,
            key,
            now_ms,
            token,
        ) == (UploadTicketView { token, expires_at_ms: (now_ms + 300_000) as i64 }),
        tickets.dom().contains(key) && tickets[key].expires_at_ms > now_ms ==> issued(
            tickets,
            key,
            now_ms,
            token,
        ) == tickets[key],
        tickets.dom().contains(key) && tickets[key].expires_at_ms <= now_ms && now_ms <= i64::MAX
            - 300_000 ==> issued(tickets, key, now_ms, token) == (UploadTicketView {
            token,
            expires_at_ms: (now_ms + 300_000) as i64,
        }),
{
}

/// An upload is permitted exactly to the holder of a permission that is for
/// this device and job and has not ended.
pub proof fn law_permission(
    tickets: TicketMap,
    key: (Seq<char>, Seq<char>),
    provided: Seq<u8>,
    now_ms: TimestampMs,
)
    ensures
        permits(tickets, key, provided, now_ms) <==> tickets.dom().contains(key)
            && tickets[key].expires_at_ms > now_ms && tickets[key].token == provided,
{
}

/// A printer whose device has not answered is offline, and otherwise as it
/// was.
pub proof fn law_silent_printers_are_offline(remote: RemotePrinterView)
    ensures
        offline(remote).printer.status == PrinterStatus::Offline,
        offline(remote).printer.share_id == remote.printer.share_id,
        offline(remote).printer.source_device_id == remote.printer.source_device_id,
        offline(remote).printer.source_device_name == remote.printer.source_device_name,
        offline(remote).printer.display_name == remote.printer.display_name,
        offline(remote).printer.capabilities == remote.printer.capabilities,
        offline(remote).address == remote.address,
        offline(remote).port == remote.port,
        offline(remote).certificate_sha256 == remote.certificate_sha256,
{
}

/// What another device answers takes the place of what was known of it; this
/// device's own printers are not among those of others.
pub proof fn law_answers_are_taken(
    printers: Seq<RemotePrinterView>,
    own_device_id: Seq<char>,
    answers: Seq<DeviceAnswerView>,
    answer: DeviceAnswerView,
    found: Seq<RemotePrinterView>,
)
    requires
        answer.found == Some(found),
    ensures
        ({
            let before = after_answers(printers, own_device_id, answers);
            let after = after_answers(printers, own_device_id, answers.push(answer));
            &&& answer.device_id == own_device_id ==> after == before
            &&& answer.device_id != own_device_id ==> after == before.filter(
                |p: RemotePrinterView| p.printer.source_device_id != answer.device_id,
            ) + found
        }),
{
    assert(answers.push(answer).drop_last() =~= answers);
}

/// The printers of a device are reached where the device was found, and are
/// known by the certificate that it showed.
pub proof fn law_printers_are_learned(
    request_id: u64,
    list: crate::infrastructure::messages::PrintPrinterListView,
    address: Seq<char>,
    port: u16,
    certificate: Seq<u8>,
    printer: PublishedPrinterView,
)
    requires
        list.status == Some(success_status()),
        valid_id(list.source_device_id),
        list.printers == seq![printer_message(printer)],
        valid_id(printer.share_id),
        printer.capabilities.validation() is Ok,
        crate::infrastructure::wire::usable_sizes(printer.capabilities.media_sizes),
    ensures
        printer_answer(
            PrintServerFrameView { request_id, body: ServerBodyView::PrinterList(list) },
            request_id,
            address,
            port,
            certificate,
        ) == Ok::<Seq<RemotePrinterView>, PrintErrorView>(
            seq![
                RemotePrinterView {
                    printer: PublishedPrinterView {
                        source_device_id: list.source_device_id,
                        source_device_name: list.source_device_name,
                        ..printer
                    },
                    address,
                    port,
                    certificate_sha256: hex_text(certificate),
                },
            ],
        ),
{
    let learned = PublishedPrinterView {
        source_device_id: list.source_device_id,
        source_device_name: list.source_device_name,
        ..printer
    };
    crate::infrastructure::wire::law_printer_round_trip(learned);
    assert(printer_message(learned) == printer_message(printer));
    assert(list.printers.drop_last() =~= Seq::<PrintPublishedPrinterView>::empty());
    assert(list.printers.last() == printer_message(printer));
    reveal_with_fuel(crate::infrastructure::quic::printers::decoded_printers, 2);
    let remote = RemotePrinterView {
        printer: learned,
        address,
        port,
        certificate_sha256: hex_text(certificate),
    };
    assert(Seq::<RemotePrinterView>::empty().push(remote) =~= seq![remote]);
}

/// A session that this device opened is used; for another it tries again for
/// three seconds, and then gives up.
pub proof fn law_sessions(initiator: Seq<char>, own: Seq<char>, elapsed_ms: u64)
    ensures
        initiator == own ==> session_choice(initiator, own, elapsed_ms) == SessionChoice::Use,
        initiator != own && elapsed_ms < 3_000 ==> session_choice(initiator, own, elapsed_ms)
            == SessionChoice::Retry,
        initiator != own && elapsed_ms >= 3_000 ==> session_choice(initiator, own, elapsed_ms)
            == SessionChoice::GiveUp,
{
}

} // verus!
