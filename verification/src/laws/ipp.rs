//! What a local print queue asks for, and what it is told.
use vstd::prelude::*;
use vstd::utf8::*;

use crate::bytes::{be32, signed, twos};
use crate::domain::TimestampMs;
use crate::domain::capability::{ColorMode, DuplexMode, Orientation};
use crate::domain::job::{PageRange, PrintJobState};
use crate::error::PrintErrorView;
use crate::infrastructure::ipp::bridge::{
    bare_response, job_answer, job_route, meant_job, printer_route, protocol_state, recent_jobs,
    GetJobsFlowView, IppRouteView, JobQueryView,
};
use crate::infrastructure::ipp::jobs::{
    by_number, job_numbered, lemma_numbered, loaded, newest_first, number_after, remembered, shown,
    submitted_binding, with_job, with_report, wrapped_next, IppJobBindingView, JobEntryView,
};
use crate::infrastructure::ipp::options::{
    client_job_name, is_page_range, page_ranges_of, requested_name, requested_options,
};
use crate::infrastructure::ipp::request::{
    first_value, pairs_of, values_of, IppRequestView, IppValueView,
};
use crate::infrastructure::ipp::response::response_bytes;
use crate::infrastructure::quic::printers::{found_remote, RemotePrinterView};
use crate::infrastructure::quic::replies::RemotePrintJobView;
use crate::laws::text::law_numbers_in_bytes;
use crate::model::{lemma_filter_drops_all, lemma_filter_keeps_all};
use crate::text::{decimal_text, hex_text, is_blank, lower_text};

verus! {

/// An attribute has the value that stands first under its name, and none if
/// none does.
pub proof fn law_first_value_counts(
    attributes: Seq<IppValueView>,
    name: Seq<char>,
    i: int,
)
    ensures
        0 <= i < attributes.len() && attributes[i].name == name && (forall|j: int|
            0 <= j < i ==> (#[trigger] attributes[j]).name != name) ==> first_value(
            attributes,
            name,
        ) == Some(attributes[i].value),
        (forall|j: int| 0 <= j < attributes.len() ==> (#[trigger] attributes[j]).name != name)
            ==> first_value(attributes, name) is None && values_of(attributes, name).len() == 0,
    decreases attributes.len(),
{
    if attributes.len() > 0 {
        let most = attributes.drop_last();
        law_first_value_counts(most, name, i);
        if forall|j: int| 0 <= j < attributes.len() ==> (#[trigger] attributes[j]).name != name {
            assert forall|j: int| 0 <= j < most.len() implies (#[trigger] most[j]).name
                != name by {
                assert(most[j] == attributes[j]);
            }
            assert(attributes[attributes.len() - 1].name != name);
        }
        if 0 <= i < attributes.len() && attributes[i].name == name && (forall|j: int|
            0 <= j < i ==> (#[trigger] attributes[j]).name != name) {
            assert forall|j: int| 0 <= j < i && j < most.len() implies (#[trigger] most[j]).name
                != name by {
                assert(most[j] == attributes[j]);
            }
            if i < most.len() {
                assert(most[i] == attributes[i]);
                assert(values_of(attributes, name)[0] == values_of(most, name)[0]);
            }
        }
    }
}

/// A number is the first value of four bytes, with its sign, and text the
/// first value that is UTF-8.
pub proof fn law_values_are_read(request: IppRequestView, name: Seq<char>, n: i32, text: Seq<char>)
    ensures
        first_value(request.attributes, name) == Some(be32(twos(n))) ==> request.integer_of(name)
            == Some(n),
        first_value(request.attributes, name) == Some(encode_utf8(text)) ==> request.text_of(name)
            == Some(text),
        first_value(request.attributes, name) is None ==> request.integer_of(name) is None
            && request.text_of(name) is None,
        first_value(request.attributes, name) matches Some(value) && value.len() != 4
            ==> request.integer_of(name) is None,
{
    law_numbers_in_bytes(twos(n), be32(twos(n)));
    crate::laws::text::law_signed_numbers(n);
    crate::text::lemma_utf8_round_trip(text);
}

/// As many copies are made as a request asks for, from one to a hundred; a
/// request that asks for fewer or for none gets one, and one that asks for
/// more gets a hundred.
pub proof fn law_requested_copies(request: IppRequestView)
    ensures
        ({
            let copies = requested_options(request).copies;
            &&& 1 <= copies <= 100
            &&& match request.integer_of("copies"@) {
                Some(n) => {
                    &&& 1 <= n <= 100 ==> copies == n
                    &&& n < 1 ==> copies == 1
                    &&& n > 100 ==> copies == 100
                },
                None => copies == 1,
            }
        }),
{
}

/// A request is printed in color, on both sides, across the sheet and collated
/// exactly if it says so.
pub proof fn law_requested_modes(request: IppRequestView)
    ensures
        ({
            let options = requested_options(request);
            let sides = request.text_of("sides"@);
            &&& options.color_mode == ColorMode::Color <==> request.text_of("print-color-mode"@)
                == Some("color"@)
            &&& options.duplex_mode == DuplexMode::TwoSidedLongEdge <==> sides == Some(
                "two-sided-long-edge"@,
            )
            &&& options.duplex_mode == DuplexMode::TwoSidedShortEdge <==> sides == Some(
                "two-sided-short-edge"@,
            )
            &&& options.orientation == Orientation::Landscape <==> request.integer_of(
                "orientation-requested"@,
            ) == Some(4i32)
            &&& options.collate <==> request.text_of("sheet-collate"@) == Some("collated"@)
                || request.text_of("multiple-document-handling"@) == Some(
                "separate-documents-collated-copies"@,
            )
        }),
{
    reveal_strlit("two-sided-long-edge");
    reveal_strlit("two-sided-short-edge");
    assert("two-sided-long-edge"@.len() == 19);
    assert("two-sided-short-edge"@.len() == 20);
}

/// A request is printed on the sheet that it names, and on A4 if it names
/// none; the short names of A4 and letter, in any case, stand for the long
/// ones.
pub proof fn law_requested_media(request: IppRequestView)
    ensures
        ({
            let media = requested_options(request).media_name;
            match request.text_of("media"@) {
                Some(name) => {
                    &&& lower_text(name) == "a4"@ ==> media == "iso_a4_210x297mm"@
                    &&& lower_text(name) == "letter"@ ==> media == "na_letter_8.5x11in"@
                    &&& lower_text(name) == "usletter"@ ==> media == "na_letter_8.5x11in"@
                    &&& lower_text(name) != "a4"@ && lower_text(name) != "letter"@ && lower_text(
                        name,
                    ) != "usletter"@ ==> media == name
                },
                None => media == "iso_a4_210x297mm"@,
            }
        }),
{
    reveal_strlit("a4");
    reveal_strlit("letter");
    reveal_strlit("usletter");
    reveal_strlit("iso_a4_210x297mm");
    assert(lower_text("iso_a4_210x297mm"@).len() == 16);
    assert("a4"@.len() == 2);
    assert("letter"@.len() == 6);
    assert("usletter"@.len() == 8);
}

/// Of the pairs of numbers under "page-ranges" those are printed that are
/// ranges of pages, with these first and last pages and in that order.
pub proof fn law_requested_pages(pairs: Seq<(i32, i32)>, pair: (i32, i32), value: Seq<u8>)
    ensures
        page_ranges_of(Seq::<(i32, i32)>::empty()) == Seq::<PageRange>::empty(),
        1 <= pair.0 <= pair.1 ==> page_ranges_of(pairs.push(pair)) == page_ranges_of(pairs).push(
            PageRange { first: pair.0 as u32, last: pair.1 as u32 },
        ),
        !(1 <= pair.0 <= pair.1) ==> page_ranges_of(pairs.push(pair)) == page_ranges_of(pairs),
{
    reveal(Seq::filter);
    let keep = |pair: (i32, i32)| is_page_range(pair);
    assert(pairs.push(pair).drop_last() =~= pairs);
    assert(page_ranges_of(Seq::<(i32, i32)>::empty()) =~= Seq::<PageRange>::empty());
    if 1 <= pair.0 <= pair.1 {
        assert(page_ranges_of(pairs.push(pair)) =~= page_ranges_of(pairs).push(
            PageRange { first: pair.0 as u32, last: pair.1 as u32 },
        ));
    }
}

/// A pair of numbers is a value of eight bytes: two numbers with their signs.
pub proof fn law_pairs_are_read(values: Seq<Seq<u8>>, first: i32, last: i32, other: Seq<u8>)
    requires
        other.len() != 8,
    ensures
        pairs_of(values.push(be32(twos(first)) + be32(twos(last)))) == pairs_of(values).push(
            (first, last),
        ),
        pairs_of(values.push(other)) == pairs_of(values),
        pairs_of(Seq::<Seq<u8>>::empty()) == Seq::<(i32, i32)>::empty(),
{
    let value = be32(twos(first)) + be32(twos(last));
    assert(values.push(value).drop_last() =~= values);
    assert(values.push(other).drop_last() =~= values);
    assert(value.take(4) =~= be32(twos(first)));
    assert(value.skip(4) =~= be32(twos(last)));
    law_numbers_in_bytes(twos(first), be32(twos(first)));
    law_numbers_in_bytes(twos(last), be32(twos(last)));
    crate::laws::text::law_signed_numbers(first);
    crate::laws::text::law_signed_numbers(last);
}

/// The pages, the medium and the pairs of a request are those under these
/// names.
pub proof fn law_requested_pages_stand_under_their_name(request: IppRequestView)
    ensures
        requested_options(request).page_ranges == page_ranges_of(
            pairs_of(values_of(request.attributes, "page-ranges"@)),
        ),
{
}

/// A document is called what its request calls it, unless that is nothing.
pub proof fn law_requested_name(request: IppRequestView)
    ensures
        match request.text_of("job-name"@) {
            Some(name) => requested_name(request) == if is_blank(name) {
                "ArcRelay Print Job"@
            } else {
                name
            },
            None => requested_name(request) == "ArcRelay Print Job"@,
        },
{
}

/// A job is submitted under its own name, if it has a usable one; otherwise
/// under one that different requests, and different documents, do not share.
pub proof fn law_submission_names(request: IppRequestView, digest: Seq<u8>)
    ensures
        match request.text_of("job-uuid"@) {
            Some(uuid) if !is_blank(uuid) && encode_utf8(uuid).len() <= 512 => client_job_name(
                request,
                digest,
            ) == uuid,
            _ => client_job_name(request, digest) == "ipp-"@ + decimal_text(
                request.request_id as nat,
            ) + seq!['-'] + hex_text(digest.take(8)),
        },
{
    reveal_strlit("-");
    assert("-"@ =~= seq!['-']);
}

/// A request to a printer is what its operation says: 2 prints, 4 only checks,
/// 8 calls a job off, 9 asks about a job, 10 about all jobs and 11 about the
/// printer. An unknown printer is not found, and any other operation is not
/// supported.
pub proof fn law_requests_are_routed(
    port: u16,
    remote: RemotePrinterView,
    request: IppRequestView,
    now_ms: TimestampMs,
)
    ensures
        printer_route(port, None, request, now_ms) == IppRouteView::Answer(
            bare_response(request, 0x0406),
        ),
        ({
            let route = printer_route(port, Some(remote), request, now_ms);
            let job = request.integer_of("job-id"@);
            &&& request.operation == 2 <==> route == IppRouteView::PrintJob
            &&& request.operation == 4 ==> route == IppRouteView::Answer(bare_response(request, 0))
            &&& request.operation == 8 <==> route is CancelJob
            &&& request.operation == 8 ==> route == IppRouteView::CancelJob(job)
            &&& request.operation == 9 <==> route is JobAttributes
            &&& request.operation == 9 ==> route == IppRouteView::JobAttributes(job)
            &&& request.operation == 10 <==> route == IppRouteView::Jobs
            &&& request.operation == 11 ==> route == IppRouteView::Answer(
                response_bytes(
                    request.version,
                    0,
                    request.request_id,
                    crate::infrastructure::ipp::printer::printer_payload(port, remote, now_ms),
                ),
            )
            &&& request.operation != 2 && request.operation != 4 && !(8 <= request.operation <= 11)
                ==> route == IppRouteView::Answer(bare_response(request, 0x0501))
        }),
{
}

/// A request to a job asks about it or calls it off, and nothing else.
pub proof fn law_job_requests_are_routed(request: IppRequestView, job_id: u32)
    ensures
        ({
            let route = job_route(request, job_id);
            let number = signed(job_id as nat);
            &&& request.operation == 9 ==> route == IppRouteView::JobAttributes(Some(number))
            &&& request.operation == 8 ==> route == IppRouteView::CancelJob(Some(number))
            &&& request.operation != 8 && request.operation != 9 ==> route == IppRouteView::Answer(
                bare_response(request, 0x0501),
            )
            &&& job_id <= i32::MAX ==> number == job_id
        }),
{
}

/// A job that is asked about is the one remembered under that number, if it
/// went to a printer that is known; otherwise it is not found, and without a
/// number the request is bad.
pub proof fn law_asked_job_is_meant(
    jobs: Seq<JobEntryView>,
    remotes: Seq<RemotePrinterView>,
    i: int,
    k: int,
)
    requires
        by_number(jobs),
        0 <= i < jobs.len(),
        jobs[i].id <= i32::MAX,
        0 <= k < remotes.len(),
        remotes[k].printer.source_device_id == jobs[i].binding.remote_device_id,
        remotes[k].printer.share_id == jobs[i].binding.printer_share_id,
        forall|j: int|
            0 <= j < k ==> (#[trigger] remotes[j]).printer.source_device_id
                != jobs[i].binding.remote_device_id || remotes[j].printer.share_id
                != jobs[i].binding.printer_share_id,
        crate::domain::id::valid_id(jobs[i].binding.remote_job_id),
    ensures
        meant_job(jobs, remotes, Some(jobs[i].id as i32)) == Ok::<JobQueryView, u16>(
            JobQueryView {
                local_job_id: jobs[i].id,
                remote: remotes[k],
                job_id: jobs[i].binding.remote_job_id,
            },
        ),
        meant_job(jobs, remotes, None) == Err::<JobQueryView, u16>(0x0400),
{
    lemma_numbered(jobs, i);
    law_remote_is_found(
        remotes,
        jobs[i].binding.remote_device_id,
        jobs[i].binding.printer_share_id,
        k,
    );
}

/// A number that no remembered job has is not found.
pub proof fn law_unknown_jobs_are_not_found(
    jobs: Seq<JobEntryView>,
    remotes: Seq<RemotePrinterView>,
    id: i32,
)
    requires
        forall|i: int| 0 <= i < jobs.len() ==> (#[trigger] jobs[i]).id != id,
    ensures
        meant_job(jobs, remotes, Some(id)) == Err::<JobQueryView, u16>(
            if id < 0 {
                0x0400
            } else {
                0x0406
            },
        ),
{
    if id >= 0 {
        lemma_not_numbered(jobs, id as u32);
    }
}

proof fn lemma_not_numbered(jobs: Seq<JobEntryView>, id: u32)
    requires
        forall|i: int| 0 <= i < jobs.len() ==> (#[trigger] jobs[i]).id != id,
    ensures
        job_numbered(jobs, id) is None,
    decreases jobs.len(),
{
    if jobs.len() > 0 {
        let rest = jobs.drop_first();
        assert(jobs[0].id != id);
        assert forall|i: int| 0 <= i < rest.len() implies (#[trigger] rest[i]).id != id by {
            assert(rest[i] == jobs[i + 1]);
        }
        lemma_not_numbered(rest, id);
    }
}

/// The printer of a device and a share is the first with these identifiers.
pub proof fn law_remote_is_found(
    remotes: Seq<RemotePrinterView>,
    device: Seq<char>,
    share: Seq<char>,
    k: int,
)
    ensures
        0 <= k < remotes.len() && remotes[k].printer.source_device_id == device
            && remotes[k].printer.share_id == share && (forall|j: int|
            0 <= j < k ==> (#[trigger] remotes[j]).printer.source_device_id != device
                || remotes[j].printer.share_id != share) ==> found_remote(remotes, device, share)
            == Some(remotes[k]),
        (forall|j: int|
            0 <= j < remotes.len() ==> (#[trigger] remotes[j]).printer.source_device_id != device
                || remotes[j].printer.share_id != share) ==> found_remote(remotes, device, share)
            is None,
    decreases remotes.len(),
{
    if remotes.len() > 0 {
        let rest = remotes.drop_first();
        law_remote_is_found(rest, device, share, k - 1);
        assert(forall|j: int| 0 <= j < rest.len() ==> rest[j] == remotes[j + 1]);
        if forall|j: int|
            0 <= j < remotes.len() ==> (#[trigger] remotes[j]).printer.source_device_id != device
                || remotes[j].printer.share_id != share {
            assert forall|j: int| 0 <= j < rest.len() implies (
            #[trigger] rest[j]).printer.source_device_id != device || rest[j].printer.share_id
                != share by {
                assert(rest[j] == remotes[j + 1]);
            }
            assert(remotes[0].printer.source_device_id != device || remotes[0].printer.share_id
                != share);
        } else if 0 < k < remotes.len() && forall|j: int|
            0 <= j < k ==> (#[trigger] remotes[j]).printer.source_device_id != device
                || remotes[j].printer.share_id != share {
            assert(remotes[0].printer.source_device_id != device || remotes[0].printer.share_id
                != share);
            assert forall|j: int| 0 <= j < k - 1 implies (
            #[trigger] rest[j]).printer.source_device_id != device || rest[j].printer.share_id
                != share by {
                assert(rest[j] == remotes[j + 1]);
            }
        }
    }
}

/// The states of a job in the protocol: 3 waits, 5 is printed, 6 is stopped, 7
/// was cancelled, 8 has failed and 9 is complete.
pub proof fn law_states_in_the_protocol(state: PrintJobState)
    ensures
        protocol_state(state) == 5 <==> state == PrintJobState::Printing,
        protocol_state(state) == 6 <==> state == PrintJobState::Held || state
            == PrintJobState::Ambiguous,
        protocol_state(state) == 7 <==> state == PrintJobState::Cancelled,
        protocol_state(state) == 8 <==> state == PrintJobState::Failed,
        protocol_state(state) == 9 <==> state == PrintJobState::Completed,
        protocol_state(state) == 3 || 5 <= protocol_state(state) <= 9,
{
}

/// A response begins with the version, the outcome and the number of the
/// request, and ends with the end tag.
pub proof fn law_response_head(
    version: Seq<u8>,
    status: u16,
    request_id: u32,
    payload: Seq<u8>,
)
    requires
        version.len() == 2,
    ensures
        ({
            let bytes = response_bytes(version, status, request_id, payload);
            &&& bytes.len() == 9 + payload.len()
            &&& bytes[0] == version[0] && bytes[1] == version[1]
            &&& bytes[2] * 256 + bytes[3] == status
            &&& bytes[4] * 0x100_0000 + bytes[5] * 0x1_0000 + bytes[6] * 256 + bytes[7]
                == request_id
            &&& bytes.subrange(8, 8 + payload.len() as int) == payload
            &&& bytes.last() == 0x03
        }),
{
    law_numbers_in_bytes(status as nat, seq![]);
    law_numbers_in_bytes(request_id as nat, seq![]);
    let bytes = response_bytes(version, status, request_id, payload);
    assert(bytes.subrange(8, 8 + payload.len() as int) =~= payload);
}

/// A question that a device could not answer is answered with an internal
/// error.
pub proof fn law_failed_questions(request: IppRequestView, local_job_id: u32, error: PrintErrorView)
    ensures
        job_answer(request, local_job_id, Err(error)) == bare_response(request, 0x0500),
        forall|status: u16| #[trigger]
            bare_response(request, status) == response_bytes(
                request.version,
                status,
                request.request_id,
                crate::infrastructure::ipp::response::operation_bytes(),
            ),
{
}

/// A job that was submitted is remembered with its printer, its device, its
/// document and the other device's name for it, as waiting.
pub proof fn law_submitted_jobs_are_remembered(
    remote: RemotePrinterView,
    job_id: Seq<char>,
    document_name: Seq<char>,
    now_ms: TimestampMs,
)
    ensures
        ({
            let binding = submitted_binding(remote, job_id, document_name, now_ms);
            &&& binding.remote_device_id == remote.printer.source_device_id
            &&& binding.printer_share_id == remote.printer.share_id
            &&& binding.remote_job_id == job_id
            &&& binding.remote_device_name == remote.printer.source_device_name
            &&& binding.printer_name == remote.printer.display_name
            &&& binding.document_name == document_name
            &&& binding.state == Some(PrintJobState::Queued)
            &&& binding.failure_message is None
            &&& binding.created_at_ms == now_ms && binding.updated_at_ms == now_ms
        }),
{
}

/// A report changes the state, the message and the time of its job, and
/// nothing of the others.
pub proof fn law_reports_change_their_job(
    jobs: Seq<JobEntryView>,
    id: u32,
    state: PrintJobState,
    failure_message: Option<Seq<char>>,
    now_ms: TimestampMs,
    i: int,
)
    requires
        0 <= i < jobs.len(),
    ensures
        with_report(jobs, id, state, failure_message, now_ms).len() == jobs.len(),
        with_report(jobs, id, state, failure_message, now_ms)[i] == if jobs[i].id == id {
            JobEntryView {
                id,
                binding: IppJobBindingView {
                    state: Some(state),
                    failure_message,
                    updated_at_ms: now_ms,
                    ..jobs[i].binding
                },
            }
        } else {
            jobs[i]
        },
{
}

/// A job with a new highest number is put behind the others; where that makes
/// more than 1024, those with the lowest numbers are forgotten.
pub proof fn law_latest_jobs_are_remembered(
    jobs: Seq<JobEntryView>,
    id: u32,
    binding: IppJobBindingView,
)
    requires
        by_number(jobs),
        forall|i: int| 0 <= i < jobs.len() ==> (#[trigger] jobs[i]).id < id,
    ensures
        with_job(jobs, id, binding) == jobs.push(JobEntryView { id, binding }),
        jobs.len() <= 1024 ==> remembered(jobs) == jobs,
        jobs.len() > 1024 ==> remembered(jobs) == jobs.skip(jobs.len() - 1024),
{
    let below = |e: JobEntryView| e.id < id;
    let above = |e: JobEntryView| e.id > id;
    assert forall|i: int| 0 <= i < jobs.len() implies below(#[trigger] jobs[i]) by {}
    assert forall|i: int| 0 <= i < jobs.len() implies !above(#[trigger] jobs[i]) by {}
    lemma_filter_keeps_all(jobs, below);
    lemma_filter_drops_all(jobs, above);
    assert(with_job(jobs, id, binding) =~= jobs.push(JobEntryView { id, binding }));
}

/// Numbers of jobs count up from one; after a start they go on behind the
/// highest that is remembered.
pub proof fn law_job_numbers_count_up(jobs: Seq<JobEntryView>, n: u32)
    ensures
        jobs.len() == 0 ==> number_after(jobs) == 1,
        jobs.len() > 0 && jobs.last().id < u32::MAX ==> number_after(jobs) == jobs.last().id + 1,
        n < u32::MAX ==> wrapped_next(n) == n + 1,
        wrapped_next(u32::MAX) == 0,
{
}

/// Jobs that were stored in the order of their numbers are loaded as they
/// were.
pub proof fn law_stored_jobs_are_loaded(jobs: Seq<JobEntryView>)
    requires
        by_number(jobs),
    ensures
        loaded(jobs) == jobs,
    decreases jobs.len(),
{
    if jobs.len() > 0 {
        let most = jobs.drop_last();
        let last = jobs.last();
        assert forall|i: int, j: int| 0 <= i < j < most.len() implies (#[trigger] most[i]).id < (
        #[trigger] most[j]).id by {
            assert(most[i] == jobs[i] && most[j] == jobs[j]);
        }
        law_stored_jobs_are_loaded(most);
        assert forall|i: int| 0 <= i < most.len() implies (#[trigger] most[i]).id < last.id by {
            assert(most[i] == jobs[i]);
            assert(jobs[i].id < jobs[jobs.len() - 1].id);
        }
        law_latest_jobs_are_remembered(most, last.id, last.binding);
        assert(most.push(last) =~= jobs);
    }
}

/// One answer about all jobs tells of the 64 with the highest numbers, the
/// highest first.
pub proof fn law_recent_jobs_are_told(jobs: Seq<JobEntryView>, i: int)
    ensures
        recent_jobs(jobs).len() == if jobs.len() < 64 {
            jobs.len() as int
        } else {
            64
        },
        0 <= i < recent_jobs(jobs).len() ==> recent_jobs(jobs)[i] == jobs[jobs.len() - 1 - i],
{
}

/// Jobs of other printers are not told of; the first job of this printer is
/// asked about under the name that its device gave it.
pub proof fn law_jobs_of_a_printer_are_asked_about(
    remote: RemotePrinterView,
    pending: Seq<JobEntryView>,
    payload: Seq<u8>,
    job: RemotePrintJobView,
)
    requires
        pending.len() > 0,
    ensures
        ({
            let flow = GetJobsFlowView::proceed(remote, pending, payload);
            let first = pending[0].binding;
            let rest = pending.drop_first();
            let ours = first.remote_device_id == remote.printer.source_device_id
                && first.printer_share_id == remote.printer.share_id
                && crate::domain::id::valid_id(first.remote_job_id);
            &&& !ours ==> flow == GetJobsFlowView::proceed(remote, rest, payload)
            &&& ours ==> {
                &&& flow == (GetJobsFlowView::Asking {
                    pending: rest,
                    local_job_id: pending[0].id,
                    job_id: first.remote_job_id,
                    payload,
                })
                &&& flow.after_job(remote, None) == GetJobsFlowView::proceed(remote, rest, payload)
                &&& flow.after_job(remote, Some(job)) == (GetJobsFlowView::Recording {
                    pending: rest,
                    local_job_id: pending[0].id,
                    job,
                    payload,
                })
                &&& flow.after_job(remote, Some(job)).after_recording(remote)
                    == GetJobsFlowView::proceed(
                    remote,
                    rest,
                    payload + crate::infrastructure::ipp::bridge::job_bytes(pending[0].id, job),
                )
            }
            &&& GetJobsFlowView::proceed(remote, Seq::<JobEntryView>::empty(), payload)
                == GetJobsFlowView::Done(payload)
        }),
{
}

/// What is shown of the jobs is what is remembered under their numbers, at
/// most a hundred.
pub proof fn law_shown_jobs_are_remembered(jobs: Seq<JobEntryView>, limit: usize, i: int)
    requires
        by_number(jobs),
        0 <= i < shown(jobs, limit).len(),
    ensures
        job_numbered(jobs, shown(jobs, limit)[i].id) matches Some(binding) ==> shown(
            jobs,
            limit,
        )[i].binding == binding,
        shown(jobs, limit).len() <= 100,
        limit >= newest_first(jobs).len() && newest_first(jobs).len() <= 100 ==> shown(
            jobs,
            limit,
        ).len() == newest_first(jobs).len(),
{
}

} // verus!
