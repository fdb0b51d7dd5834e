//! What names, errors, shares and commands are.
use vstd::prelude::*;
use vstd::utf8::encode_utf8;

use crate::application::ports::SystemQueueSpecView;
use crate::domain::TimestampMs;
use crate::domain::capability::{media_size, MediaSizeView, PrinterCapabilitiesView};
use crate::domain::id::parsed_id;
use crate::domain::job::{
    offer_validation, offered_job, valid_range, PrintDocumentView, PrintJobState, PrintJobView,
    PrintOptionsView,
};
use crate::domain::printer::LocalPrinterView;
use crate::domain::queue_binding::QueueBindingState;
use crate::domain::share::{published_share, PrinterShareView, ShareScope, ShareState};
use crate::error::PrintErrorView;
use crate::infrastructure::persistence::listed_at_most;
use crate::infrastructure::platform::commands::{
    assignments, command_outcome, elevated_script, installable_queue, printer_called, quoted,
};
use crate::text::{is_blank, trim_text};

verus! {

/// Text is an identifier exactly if it is not blank and has at most 512 bytes,
/// and then it is the identifier.
pub proof fn law_identifiers(label: Seq<char>, value: Seq<char>)
    ensures
        !is_blank(value) && encode_utf8(value).len() <= 512 ==> parsed_id(label, value) == Ok::<
            Seq<char>,
            PrintErrorView,
        >(value),
        is_blank(value) || encode_utf8(value).len() > 512 ==> (parsed_id(label, value) matches Err(
            error,
        ) && error is Invalid),
{
}

/// Each error has its category, and says what went wrong.
pub proof fn law_errors_have_a_category(error: PrintErrorView)
    ensures
        error is Invalid ==> error.code() == "print.invalid_argument"@,
        error is InvalidState ==> error.code() == "print.failed_precondition"@,
        error is NotFound ==> error.code() == "print.not_found"@,
        error is Conflict ==> error.code() == "print.conflict"@,
        error is Backend || error is Io ==> error.code() == "print.unavailable"@,
        error is Persistence || error is Serialization ==> error.code() == "print.internal"@,
{
}

/// The sentence for a person introduces the message and ends with it.
pub proof fn law_errors_say_what_went_wrong(error: PrintErrorView)
    ensures
        error matches PrintErrorView::Invalid(m) ==> error.text() == "invalid print value: "@ + m,
        error matches PrintErrorView::InvalidState(m) ==> error.text()
            == "print state does not allow this operation: "@ + m,
        error matches PrintErrorView::NotFound(m) ==> error.text()
            == "print resource not found: "@ + m,
        error matches PrintErrorView::Conflict(m) ==> error.text()
            == "print resource already exists: "@ + m,
        error matches PrintErrorView::Backend(m) ==> error.text() == "print backend failed: "@
            + m,
        error matches PrintErrorView::Persistence(m) ==> error.text()
            == "print persistence failed: "@ + m,
        error matches PrintErrorView::Serialization(m) ==> error.text()
            == "print serialization failed: "@ + m,
        error matches PrintErrorView::Io(_, m) ==> error.text() == "print I/O failed: "@ + m,
        error.message() == error.text().skip(error.lead().len() as int),
{
    assert(error.message() =~= error.text().skip(error.lead().len() as int));
}

/// A sheet has a name and two sides that are not zero, and is what was said.
pub proof fn law_sheets(name: Seq<char>, width: u32, height: u32)
    ensures
        !is_blank(name) && width > 0 && height > 0 ==> media_size(name, width, height) == Ok::<
            MediaSizeView,
            PrintErrorView,
        >(MediaSizeView { name, width_microns: width, height_microns: height }),
        is_blank(name) || width == 0 || height == 0 ==> media_size(name, width, height) is Err,
{
}

/// A printer can be published exactly if it has a name, something to print on,
/// makes copies and takes some kind of document.
pub proof fn law_publishable_printers(printer: LocalPrinterView)
    ensures
        printer.validation() is Ok <==> !is_blank(printer.display_name)
            && printer.capabilities.media_sizes.len() > 0 && printer.capabilities.max_copies > 0
            && printer.capabilities.accepted_document_types.len() > 0,
        printer.capabilities.validation() is Ok <==> printer.capabilities.media_sizes.len() > 0
            && printer.capabilities.max_copies > 0
            && printer.capabilities.accepted_document_types.len() > 0,
{
}

/// A share starts as its printer is, published for paired devices.
pub proof fn law_shares_start_published(
    id: Seq<char>,
    printer: LocalPrinterView,
    now_ms: TimestampMs,
)
    ensures
        ({
            let share = published_share(id, printer, now_ms);
            &&& share.id == id
            &&& share.local_printer_id == printer.id
            &&& share.display_name == printer.display_name
            &&& share.capabilities == printer.capabilities
            &&& share.scope == ShareScope::PairedDevices
            &&& share.state == ShareState::Published
            &&& share.capability_revision == 1
            &&& share.created_at_ms == now_ms && share.updated_at_ms == now_ms
        }),
{
}

/// A share is suspended and resumed unless it was removed; asked twice, it
/// does not change again.
pub proof fn law_shares_change_state(share: PrinterShareView, now_ms: TimestampMs)
    ensures
        share.state == ShareState::Published ==> (share.suspended(now_ms) matches Ok(after)
            && after.state == ShareState::Suspended && after.updated_at_ms == now_ms && after.id
            == share.id && after.capabilities == share.capabilities && after.display_name
            == share.display_name && after.capability_revision == share.capability_revision),
        share.state == ShareState::Suspended ==> (share.resumed(now_ms) matches Ok(after)
            && after.state == ShareState::Published && after.updated_at_ms == now_ms && after.id
            == share.id && after.capabilities == share.capabilities && after.display_name
            == share.display_name && after.capability_revision == share.capability_revision),
        share.state == ShareState::Suspended ==> share.suspended(now_ms) == Ok::<
            PrinterShareView,
            PrintErrorView,
        >(share),
        share.state == ShareState::Published ==> share.resumed(now_ms) == Ok::<
            PrinterShareView,
            PrintErrorView,
        >(share),
        share.state == ShareState::Removed ==> share.suspended(now_ms) is Err && share.resumed(
            now_ms,
        ) is Err,
        share.removed(now_ms).state == ShareState::Removed,
        share.removed(now_ms).updated_at_ms == now_ms,
        share.removed(now_ms).id == share.id,
{
}

/// A share takes over the name and the capabilities of its printer, and its
/// revision grows by one if they are new to it.
pub proof fn law_shares_follow_their_printer(
    share: PrinterShareView,
    display_name: Seq<char>,
    capabilities: PrinterCapabilitiesView,
    now_ms: TimestampMs,
)
    ensures
        ({
            let after = share.described_as(display_name, capabilities, now_ms);
            let new = share.display_name != display_name || share.capabilities != capabilities;
            &&& after.display_name == display_name && after.capabilities == capabilities
            &&& new && share.capability_revision < u64::MAX ==> after.capability_revision
                == share.capability_revision + 1
            &&& new ==> after.updated_at_ms == now_ms
            &&& !new ==> after == share
            &&& share.describes(display_name, capabilities) <==> !new
        }),
        PrinterShareView::update_validation(display_name, capabilities) is Ok <==> !is_blank(
            display_name,
        ) && capabilities.media_sizes.len() > 0 && capabilities.max_copies > 0
            && capabilities.accepted_document_types.len() > 0,
{
}

/// A document is taken exactly if it has a name of at most 512 bytes, is a PDF
/// document or a raster image, and has between one byte and 500 MiB.
pub proof fn law_documents_are_checked(document: PrintDocumentView)
    ensures
        document.validation() is Ok <==> !is_blank(document.name) && encode_utf8(
            document.name,
        ).len() <= 512 && (document.media_type == "application/pdf"@ || document.media_type
            == "image/pwg-raster"@) && 1 <= document.size_bytes <= 524_288_000,
        document.validation() matches Err(error) ==> error is Invalid,
{
}

/// Options are taken exactly if they ask for between one and a hundred copies,
/// name a sheet, and ask for pages from the first on.
pub proof fn law_options_are_checked(options: PrintOptionsView)
    ensures
        options.validation() is Ok <==> 1 <= options.copies <= 100 && !is_blank(options.media_name)
            && forall|i: int|
            0 <= i < options.page_ranges.len() ==> 1 <= (#[trigger] options.page_ranges[i]).first
                <= options.page_ranges[i].last,
        options.validation() matches Err(error) ==> error is Invalid,
{
    if options.validation() is Ok {
        assert forall|i: int| 0 <= i < options.page_ranges.len() implies 1 <= (
        #[trigger] options.page_ranges[i]).first <= options.page_ranges[i].last by {
            assert(valid_range(options.page_ranges[i]));
        }
    } else if forall|i: int|
        0 <= i < options.page_ranges.len() ==> 1 <= (#[trigger] options.page_ranges[i]).first
            <= options.page_ranges[i].last {
        assert forall|i: int| 0 <= i < options.page_ranges.len() implies valid_range(
            #[trigger] options.page_ranges[i],
        ) by {
            assert(1 <= options.page_ranges[i].first);
        }
    }
}

/// A job starts as it is offered, if both its document and its options are in
/// order.
pub proof fn law_jobs_start_offered(
    id: Seq<char>,
    client_job_id: Seq<char>,
    device: Seq<char>,
    share: Seq<char>,
    document: PrintDocumentView,
    options: PrintOptionsView,
    now_ms: TimestampMs,
)
    ensures
        ({
            let job = offered_job(id, client_job_id, device, share, document, options, now_ms);
            &&& job.id == id && job.client_job_id == client_job_id
            &&& job.source_device_id == device && job.printer_share_id == share
            &&& job.document == document && job.options == options
            &&& job.state == PrintJobState::Offered
            &&& job.native_job_id is None && job.failure_message is None
            &&& job.created_at_ms == now_ms && job.updated_at_ms == now_ms
        }),
        offer_validation(document, options) is Ok <==> document.validation() is Ok
            && options.validation() is Ok,
{
}

/// A document arrives for a job that receives it, if it is the one that was
/// announced; it is checked then.
pub proof fn law_documents_arrive(job: PrintJobView, digest: Seq<u8>, now_ms: TimestampMs)
    ensures
        job.state == PrintJobState::Receiving && digest == job.document.sha256 ==> (
        job.after_document(digest, now_ms) matches Ok(after) && after.state
            == PrintJobState::Validating && after.updated_at_ms == now_ms && after.id == job.id
            && after.document == job.document && after.options == job.options),
        job.state == PrintJobState::Receiving && digest != job.document.sha256 ==> (
        job.after_document(digest, now_ms) matches Err(error) && error is Invalid),
        job.state != PrintJobState::Receiving ==> (job.after_document(
            digest,
            now_ms,
        ) matches Err(error) && error is InvalidState),
{
}

/// A job that the spooler took waits there under the spooler's name for it; of
/// one that it may have taken what is known is kept.
pub proof fn law_submitted_jobs_wait(
    job: PrintJobView,
    native: Seq<char>,
    message: Seq<char>,
    now_ms: TimestampMs,
)
    requires
        job.state == PrintJobState::Submitting,
    ensures
        job.after_queued(native, now_ms) matches Ok(after) && after.state == PrintJobState::Queued
            && after.native_job_id == Some(native) && after.failure_message is None
            && after.updated_at_ms == now_ms && after.id == job.id,
        job.after_ambiguous(Some(native), message, now_ms) matches Ok(after) && after.state
            == PrintJobState::Ambiguous && after.native_job_id == Some(native)
            && after.failure_message == Some(message),
        job.after_ambiguous(None, message, now_ms) matches Ok(after) && after.state
            == PrintJobState::Ambiguous && after.native_job_id == job.native_job_id
            && after.failure_message == Some(message),
{
}

/// A job that changes its state takes the message that comes with it, or loses
/// the one that it had.
pub proof fn law_steps_come_with_messages(
    job: PrintJobView,
    next: PrintJobState,
    message: Option<Seq<char>>,
    now_ms: TimestampMs,
)
    ensures
        job.moved_with(next, message, now_ms) is Ok <==> job.moved(next, now_ms) is Ok,
        job.moved_with(next, message, now_ms) matches Ok(after) ==> after.state == next
            && after.failure_message == message && after.id == job.id && after.native_job_id
            == job.native_job_id,
{
}

/// The names of the states of a job.
pub proof fn law_states_have_names()
    ensures
        PrintJobState::Offered.label() == "Offered"@,
        PrintJobState::Receiving.label() == "Receiving"@,
        PrintJobState::Validating.label() == "Validating"@,
        PrintJobState::Ready.label() == "Ready"@,
        PrintJobState::Submitting.label() == "Submitting"@,
        PrintJobState::Queued.label() == "Queued"@,
        PrintJobState::Printing.label() == "Printing"@,
        PrintJobState::Completed.label() == "Completed"@,
        PrintJobState::Held.label() == "Held"@,
        PrintJobState::Cancelled.label() == "Cancelled"@,
        PrintJobState::Failed.label() == "Failed"@,
        PrintJobState::Ambiguous.label() == "Ambiguous"@,
{
}

/// The words under which states are stored.
pub proof fn law_stored_words()
    ensures
        ShareState::Published.stored() == "published"@,
        ShareState::Suspended.stored() == "suspended"@,
        ShareState::Removed.stored() == "removed"@,
        QueueBindingState::Installing.stored() == "installing"@,
        QueueBindingState::Ready.stored() == "ready"@,
        QueueBindingState::SourceOffline.stored() == "sourceOffline"@,
        QueueBindingState::Removing.stored() == "removing"@,
        QueueBindingState::Failed.stored() == "failed"@,
        PrintJobState::Offered.stored() == "offered"@,
        PrintJobState::Receiving.stored() == "receiving"@,
        PrintJobState::Validating.stored() == "validating"@,
        PrintJobState::Ready.stored() == "ready"@,
        PrintJobState::Submitting.stored() == "submitting"@,
        PrintJobState::Queued.stored() == "queued"@,
        PrintJobState::Printing.stored() == "printing"@,
        PrintJobState::Completed.stored() == "completed"@,
        PrintJobState::Held.stored() == "held"@,
        PrintJobState::Cancelled.stored() == "cancelled"@,
        PrintJobState::Failed.stored() == "failed"@,
        PrintJobState::Ambiguous.stored() == "ambiguous"@,
{
}

/// As many jobs are listed as are asked for, but not more than a hundred.
pub proof fn law_lists_are_limited(limit: usize)
    ensures
        limit <= 100 ==> listed_at_most(limit) == limit,
        limit > 100 ==> listed_at_most(limit) == 100,
{
}

/// A queue is installed under its name exactly if that consists of one to 127
/// letters, digits, hyphens and underscores.
pub proof fn law_installable_names(spec: SystemQueueSpecView)
    ensures
        ({
            let name = spec.queue_name;
            let plain = 1 <= name.len() && encode_utf8(name).len() <= 127 && forall|i: int|
                0 <= i < name.len() ==> {
                    ||| 'a' <= (#[trigger] name[i]) <= 'z'
                    ||| 'A' <= name[i] <= 'Z'
                    ||| '0' <= name[i] <= '9'
                    ||| name[i] == '-'
                    ||| name[i] == '_'
                };
            &&& plain ==> installable_queue(spec) == Ok::<Seq<char>, PrintErrorView>(name)
            &&& !plain ==> (installable_queue(spec) matches Err(error) && error is Invalid)
        }),
{
    let name = spec.queue_name;
    if crate::infrastructure::platform::commands::is_queue_name(name) {
        crate::infrastructure::platform::commands::law_queue_names_are_safe(name, 0);
    }
}

/// A printer is found by its identifier, and the first of that identifier.
pub proof fn law_printers_are_found(printers: Seq<LocalPrinterView>, id: Seq<char>, i: int)
    ensures
        0 <= i < printers.len() && printers[i].id == id && (forall|j: int|
            0 <= j < i ==> (#[trigger] printers[j]).id != id) ==> printer_called(printers, id)
            == Some(printers[i]),
        (forall|j: int| 0 <= j < printers.len() ==> (#[trigger] printers[j]).id != id)
            ==> printer_called(printers, id) is None,
    decreases printers.len(),
{
    if printers.len() > 0 {
        let rest = printers.drop_first();
        law_printers_are_found(rest, id, i - 1);
        if forall|j: int| 0 <= j < printers.len() ==> (#[trigger] printers[j]).id != id {
            assert(printers[0].id != id);
            assert forall|j: int| 0 <= j < rest.len() implies (#[trigger] rest[j]).id != id by {
                assert(rest[j] == printers[j + 1]);
            }
        } else if 0 < i < printers.len() && forall|j: int|
            0 <= j < i ==> (#[trigger] printers[j]).id != id {
            assert(printers[0].id != id);
            assert(rest[i - 1] == printers[i]);
            assert forall|j: int| 0 <= j < i - 1 implies (#[trigger] rest[j]).id != id by {
                assert(rest[j] == printers[j + 1]);
            }
        }
    }
}

/// A command that succeeds yields its output; one that fails yields what it
/// said of that, or how it ended if it said nothing.
pub proof fn law_commands_come_to_something(
    status: Seq<char>,
    stdout: Seq<char>,
    stderr: Seq<char>,
)
    ensures
        command_outcome(true, status, stdout, stderr) == Ok::<Seq<char>, PrintErrorView>(
            trim_text(stdout),
        ),
        trim_text(stderr).len() > 0 ==> command_outcome(false, status, stdout, stderr) == Err::<
            Seq<char>,
            PrintErrorView,
        >(PrintErrorView::Backend(trim_text(stderr))),
        trim_text(stderr).len() == 0 ==> command_outcome(false, status, stdout, stderr) == Err::<
            Seq<char>,
            PrintErrorView,
        >(PrintErrorView::Backend("print command exited with "@ + status)),
{
}

/// Between single quotes a quote is written twice and any other character as
/// it is.
pub proof fn law_quoting(value: Seq<char>, c: char)
    ensures
        quoted(Seq::empty()).len() == 0,
        quoted(value.push(c)) == if c == '\'' {
            quoted(value).push('\'').push('\'')
        } else {
            quoted(value).push(c)
        },
{
    reveal_strlit("''");
    assert(value.push(c).drop_last() =~= value);
    assert(quoted(value) + "''"@ =~= quoted(value).push('\'').push('\''));
    assert(quoted(value) + seq![c] =~= quoted(value).push(c));
}

/// A script sets every variable, in order, before it does its work.
pub proof fn law_scripts_set_their_variables(
    operation: Seq<char>,
    environment: Seq<(Seq<char>, Seq<char>)>,
    result_path: Seq<char>,
    name: Seq<char>,
    value: Seq<char>,
)
    ensures
        assignments(Seq::empty()).len() == 0,
        assignments(environment.push((name, value))) == assignments(environment) + "$env:"@ + name
            + " = '"@ + quoted(value) + "'\n"@,
        elevated_script(operation, environment, result_path)
            == "$ErrorActionPreference = 'Stop'\n"@ + assignments(environment) + "try {\n"@
            + operation + "\n} catch {\n"@ + "[IO.File]::WriteAllText('"@ + quoted(result_path)
            + "', $_.Exception.Message)\n"@ + "exit 1\n}\n"@,
{
    assert(environment.push((name, value)).drop_last() =~= environment);
}

} // verus!
