//! What devices exchange, and in which order printers are listed.
use vstd::prelude::*;
use vstd::utf8::encode_utf8;

use crate::application::ports::{clamped, wrapped};
use crate::application::share_service::{
    hosted_printers, publication, visible_printers, ShareFlowView,
};
use crate::domain::TimestampMs;
use crate::domain::id::valid_id;
use crate::domain::printer::LocalPrinterView;
use crate::domain::queue_binding::RemoteQueueBindingView;
use crate::domain::share::PrinterShareView;
use crate::error::PrintErrorView;
use crate::infrastructure::ipp::bridge::{accepted_payload, bare_response, submission_answer};
use crate::infrastructure::ipp::jobs::{
    remembered, submitted_binding, with_job, wrapped_next, IppBridgeView,
};
use crate::infrastructure::ipp::request::IppRequestView;
use crate::infrastructure::ipp::response::response_bytes;
use crate::infrastructure::messages::{
    ErrorCode, PrintJobInfoView, PrintJobResultView, PrintServerFrameView, RecoveryAction,
    ServerBodyView, WireJobState,
};
use crate::infrastructure::platform::bitmap::shown_page;
use crate::infrastructure::platform::json::JsonValueView;
use crate::infrastructure::platform::render::opaque_bgra;
use crate::infrastructure::platform::windows_backend::{
    decoded_job, job_text, printers_in, row_printers, rows_of,
};
use crate::infrastructure::quic::printers::{named, sorted_from, RemotePrinterView};
use crate::infrastructure::quic::replies::{remote_job, RemotePrintJobView};
use crate::infrastructure::quic::server::late_frame;
use crate::infrastructure::quic::tickets::{after_consume, after_issue, permits, TicketMap};
use crate::infrastructure::ranges::read_limit;
use crate::order::lex_le;
use crate::text::{decimal_text, hex_text, trim_text};

verus! {

/// Of two byte strings the one with the smaller byte where they first differ
/// comes first, and a beginning comes before the whole.
pub proof fn law_order_of_bytes(start: Seq<u8>, x: u8, y: u8, a: Seq<u8>, b: Seq<u8>)
    ensures
        x < y ==> lex_le(start + seq![x] + a, start + seq![y] + b),
        x < y ==> !lex_le(start + seq![y] + b, start + seq![x] + a),
        lex_le(start, start + a),
        a.len() > 0 ==> !lex_le(start + a, start),
    decreases start.len(),
{
    let one = start + seq![x] + a;
    let two = start + seq![y] + b;
    if start.len() == 0 {
        assert(one[0] == x && two[0] == y);
    } else {
        let rest = start.drop_first();
        law_order_of_bytes(rest, x, y, a, b);
        assert(one.drop_first() =~= rest + seq![x] + a);
        assert(two.drop_first() =~= rest + seq![y] + b);
        assert((start + a).drop_first() =~= rest + a);
        assert(one[0] == start[0] && two[0] == start[0] && (start + a)[0] == start[0]);
    }
}

/// Printers are listed by the names of their devices, those of a device by
/// their own names; none is lost, and those with the same names keep their
/// order.
pub proof fn law_printers_are_listed_by_name(
    before: Seq<RemotePrinterView>,
    after: Seq<RemotePrinterView>,
    i: int,
    j: int,
    device: Seq<char>,
    name: Seq<char>,
)
    requires
        sorted_from(before, after),
    ensures
        0 <= i < j < after.len() && after[i].printer.source_device_name
            != after[j].printer.source_device_name ==> lex_le(
            encode_utf8(after[i].printer.source_device_name),
            encode_utf8(after[j].printer.source_device_name),
        ),
        0 <= i < j < after.len() && after[i].printer.source_device_name
            == after[j].printer.source_device_name ==> lex_le(
            encode_utf8(after[i].printer.display_name),
            encode_utf8(after[j].printer.display_name),
        ),
        after.filter(
            |p: RemotePrinterView|
                p.printer.source_device_name == device && p.printer.display_name == name,
        ) == before.filter(
            |p: RemotePrinterView|
                p.printer.source_device_name == device && p.printer.display_name == name,
        ),
{
    let keep = |p: RemotePrinterView|
        p.printer.source_device_name == device && p.printer.display_name == name;
    assert(keep =~= |p: RemotePrinterView|
        crate::infrastructure::quic::printers::is_named(p, device, name));
    assert(named(before, device, name) == named(after, device, name));
}

/// A permission that was used is gone; one that was not asked for, or asked
/// for wrongly, holds as long as it did.
pub proof fn law_other_permissions_hold(
    tickets: TicketMap,
    key: (Seq<char>, Seq<char>),
    other: (Seq<char>, Seq<char>),
    provided: Seq<u8>,
    token: Seq<u8>,
    now_ms: TimestampMs,
    later_ms: TimestampMs,
)
    requires
        now_ms <= later_ms,
    ensures
        key != other ==> (permits(
            after_consume(tickets, key, provided, now_ms),
            other,
            token,
            later_ms,
        ) <==> permits(tickets, other, token, later_ms)),
        !permits(tickets, key, provided, now_ms) ==> (permits(
            after_consume(tickets, key, provided, now_ms),
            key,
            token,
            later_ms,
        ) <==> permits(tickets, key, token, later_ms)),
        permits(tickets, key, provided, now_ms) ==> !after_consume(
            tickets,
            key,
            provided,
            now_ms,
        ).dom().contains(key),
        after_issue(tickets, key, now_ms, token).dom().contains(key),
{
}

/// As much is read at a time as is left and as there is room for.
pub proof fn law_as_much_is_read_as_fits(remaining: int, room: int)
    ensures
        read_limit(remaining, room) <= remaining,
        read_limit(remaining, room) <= room,
        read_limit(remaining, room) == remaining || read_limit(remaining, room) == room,
{
}

/// What another device says of a job is believed if it answers the request,
/// succeeded, and names a job in a known state.
pub proof fn law_remote_jobs_are_told(
    request_id: u64,
    result: PrintJobResultView,
    job: PrintJobInfoView,
)
    ensures
        ({
            let frame = PrintServerFrameView { request_id, body: ServerBodyView::JobResult(result) };
            let other = PrintServerFrameView {
                request_id: if request_id == 0 {
                    1
                } else {
                    0
                },
                body: ServerBodyView::JobResult(result),
            };
            &&& remote_job(other, request_id) is Err
            &&& result.status is None ==> remote_job(frame, request_id) is Err
            &&& result.job is None ==> remote_job(frame, request_id) is Err
            &&& (result.status matches Some(status) && status.code != ErrorCode::Success)
                ==> remote_job(frame, request_id) is Err
            &&& (result.status matches Some(status) && status.code == ErrorCode::Success)
                && result.job == Some(job) && valid_id(job.job_id) ==> match job.state {
                WireJobState::Known(state) => remote_job(frame, request_id) == Ok::<
                    RemotePrintJobView,
                    PrintErrorView,
                >(
                    RemotePrintJobView {
                        id: job.job_id,
                        state,
                        failure_message: job.failure_message,
                    },
                ),
                _ => remote_job(frame, request_id) is Err,
            }
        }),
{
}

/// A request that took too long is answered with that, and can be tried again.
pub proof fn law_late_requests_are_told(request_id: u64)
    ensures
        late_frame(request_id).request_id == request_id,
        late_frame(request_id).body matches ServerBodyView::Status(status) && status.code
            == ErrorCode::DeadlineExceeded && status.retryable && status.recovery_action
            == RecoveryAction::RetryWithBackoff,
{
}

/// A machine that cannot share its printers publishes none and shows none.
pub proof fn law_only_hosts_share(
    id: Seq<char>,
    device: Seq<char>,
    name: Seq<char>,
    bindings: Seq<RemoteQueueBindingView>,
    printers: Seq<LocalPrinterView>,
    shares: Seq<PrinterShareView>,
)
    ensures
        publication(false, id) matches ShareFlowView::Done(Err(error)) && error is Backend,
        publication(true, id) == ShareFlowView::PublishBindings(id),
        hosted_printers(false, device, name, bindings, printers, shares).len() == 0,
        hosted_printers(true, device, name, bindings, printers, shares) == visible_printers(
            device,
            name,
            bindings,
            printers,
            shares,
        ),
{
}

/// A system that lists nothing has no printers; what is no JSON is reported.
pub proof fn law_listing_is_read(output: Seq<char>, value: JsonValueView, message: Seq<char>)
    ensures
        trim_text(output).len() == 0 ==> printers_in(output, Ok(value)) == Ok::<
            Seq<LocalPrinterView>,
            PrintErrorView,
        >(seq![]),
        trim_text(output).len() > 0 ==> printers_in(output, Ok(value)) == row_printers(
            rows_of(value),
        ),
        trim_text(output).len() > 0 ==> printers_in(output, Err(message)) == Err::<
            Seq<LocalPrinterView>,
            PrintErrorView,
        >(PrintErrorView::Serialization(message)),
{
}

/// A document that another device took is answered with the next number, under
/// which its job is remembered; one that was not taken changes nothing.
pub proof fn law_submissions_are_answered(
    bridge: IppBridgeView,
    remote: RemotePrinterView,
    request: IppRequestView,
    name: Seq<char>,
    job_id: Seq<char>,
    error: PrintErrorView,
    now_ms: TimestampMs,
)
    ensures
        ({
            let (answer, after) = submission_answer(
                bridge,
                remote,
                request,
                name,
                Ok(job_id),
                now_ms,
            );
            &&& answer == response_bytes(
                request.version,
                0x0000,
                request.request_id,
                accepted_payload(bridge.port, bridge.next_job_id),
            )
            &&& after.port == bridge.port
            &&& after.next_job_id == wrapped_next(bridge.next_job_id)
            &&& after.jobs == remembered(
                with_job(
                    bridge.jobs,
                    bridge.next_job_id,
                    submitted_binding(remote, job_id, name, now_ms),
                ),
            )
        }),
        submission_answer(bridge, remote, request, name, Err(error), now_ms) == (
            bare_response(request, 0x0500),
            bridge,
        ),
{
}

/// A job of the spooler is named by its printer and its number, and both are
/// found again in the name.
pub proof fn law_spooler_jobs_are_named(printer: Seq<char>, job: u32)
    ensures
        job_text(printer, job) == "winspool:v1:"@ + decimal_text(job as nat) + ":"@ + hex_text(
            encode_utf8(printer),
        ),
        decoded_job(job_text(printer, job)) == Ok::<(Seq<char>, u32), PrintErrorView>(
            (printer, job),
        ),
{
    crate::infrastructure::platform::windows_backend::law_native_job_round_trip(printer, job);
}

/// A page that was decoded keeps its sides; a failure is reported.
pub proof fn law_decoded_pages_are_shown(
    width: u32,
    height: u32,
    pixels: Seq<u8>,
    message: Seq<char>,
)
    ensures
        shown_page(Ok((width, height, pixels))) matches Ok(page) && page.width == width
            && page.height == height && page.bgra == opaque_bgra(pixels),
        shown_page(Err(message)) matches Err(error) && error == PrintErrorView::Backend(
            "decode rendered PDF page: "@ + message,
        ),
{
}

/// Times that fit are kept; others become the largest, or wrap around.
pub proof fn law_times(millis: u128)
    ensures
        millis <= i64::MAX ==> clamped(millis) == millis && wrapped(millis) == millis,
        millis > i64::MAX ==> clamped(millis) == i64::MAX,
        i64::MIN <= wrapped(millis) <= i64::MAX,
        (millis - wrapped(millis)) % 0x1_0000_0000_0000_0000 == 0,
{
}

} // verus!
