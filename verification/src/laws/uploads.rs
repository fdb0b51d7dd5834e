//! How a document comes to the device that prints it.
use vstd::prelude::*;

use crate::domain::id::{parsed_id, valid_id};
use crate::domain::job::PrintJobView;
use crate::error::{IoErrorKind, PrintErrorView};
use crate::hash::sha256;
use crate::infrastructure::messages::{ErrorCode, PrintDocumentChunkView, PrintDocumentOpenView};
use crate::infrastructure::quic::upload::{
    stream_kind_check, upload_start, UploadActionView, UploadFlowView, UploadReplyView, UploadStall,
    MAX_UPLOADS, PRINT_UPLOAD_IDLE_TIMEOUT_MS, PRINT_UPLOAD_SETUP_TIMEOUT_MS,
    PRINT_UPLOAD_TOTAL_TIMEOUT_MS,
};
use crate::infrastructure::ranges::early_end;
use crate::infrastructure::spool::{
    deleted, document_path, private_grants, reception_start, SpoolArea, SpoolPathView,
    SpoolWriterView,
};
use crate::unique::is_uuid_text;

verus! {

/// An upload asks for its job, and goes on with a ticket exactly if the job is
/// that device's and the document that job's.
pub proof fn law_uploads_are_admitted(
    root: Seq<char>,
    source: Seq<char>,
    open: PrintDocumentOpenView,
    job: PrintJobView,
)
    requires
        valid_id(open.job_id),
    ensures
        ({
            let start = upload_start(source, open);
            let next = start.resumed(root, UploadReplyView::Job(Ok(Some(job))));
            let fits = job.source_device_id == source && open.size_bytes == job.document.size_bytes
                && open.sha256 == job.document.sha256;
            &&& start.action() == UploadActionView::FindJob(open.job_id)
            &&& fits ==> next.action() == UploadActionView::ConsumeTicket(
                source,
                open.job_id,
                open.upload_ticket,
            )
            &&& !fits ==> next.action() is Abandon
            &&& start.resumed(root, UploadReplyView::Job(Ok(None))).action()
                == UploadActionView::Abandon(PrintErrorView::NotFound(open.job_id))
        }),
{
}

/// Once the ticket was taken, the job is told, and the document is received
/// where no other is.
pub proof fn law_reception_begins(
    root: Seq<char>,
    job: PrintJobView,
    job_id: Seq<char>,
    token: Seq<u8>,
)
    requires
        is_uuid_text(job.id),
    ensures
        ({
            let admitted = (UploadFlowView::Admitting { job, job_id, token }).resumed(
                root,
                UploadReplyView::Finished(Ok(())),
            );
            let told = admitted.resumed(root, UploadReplyView::Finished(Ok(())));
            let free = told.resumed(root, UploadReplyView::Exists(Ok(false)));
            &&& admitted.action() == UploadActionView::BeginReceiving(job_id)
            &&& told.action() matches UploadActionView::DocumentExists(path) && path.root == root
                && path.area == SpoolArea::Ready && path.file_name == job.id + ".document"@
            &&& told.resumed(root, UploadReplyView::Exists(Ok(true))).action() matches UploadActionView::Abandon(
                error,
            ) && error is Conflict
            &&& free.action() matches UploadActionView::CreateFile(path) && path.root == root
                && path.area == SpoolArea::Receiving && path.file_name == job.id + ".part"@
            &&& job.document.size_bytes > 0 ==> free.resumed(
                root,
                UploadReplyView::Finished(Ok(())),
            ).action() == UploadActionView::ReadChunk
        }),
{
}

/// A piece of a document is written exactly if it is not empty, begins where
/// the last one ended, and does not go beyond the announced size.
pub proof fn law_pieces_are_taken_in_order(
    root: Seq<char>,
    job_id: Seq<char>,
    digest: Seq<u8>,
    size: u64,
    writer: SpoolWriterView,
    chunk: PrintDocumentChunkView,
)
    ensures
        ({
            let reading = UploadFlowView::Reading { job_id, digest, size, writer };
            let next = reading.resumed(root, UploadReplyView::Chunk(Ok(chunk)));
            let fits = chunk.data.len() > 0 && chunk.offset == writer.received.len()
                && writer.received.len() + chunk.data.len() <= writer.expected_size;
            &&& fits ==> next.action() == UploadActionView::WriteFile(chunk.data)
            &&& !fits ==> (next.action() matches UploadActionView::Abandon(error) && error
                is Invalid)
        }),
{
}

/// The document is read on until all of it is there, and then closed.
pub proof fn law_all_of_a_document_is_read(
    root: Seq<char>,
    job_id: Seq<char>,
    digest: Seq<u8>,
    size: u64,
    writer: SpoolWriterView,
    chunk: PrintDocumentChunkView,
)
    ensures
        ({
            let writing = UploadFlowView::Writing { job_id, digest, size, writer, chunk };
            let next = writing.resumed(root, UploadReplyView::Finished(Ok(())));
            &&& writer.received.len() + chunk.data.len() < size ==> (
            next matches UploadFlowView::Reading { job_id: i, digest: d, size: s, writer: w }
                && w.received == writer.received + chunk.data && w.expected_size
                == writer.expected_size && w.ready == writer.ready && i == job_id && d == digest
                && s == size)
            &&& writer.received.len() + chunk.data.len() >= size ==> next.action()
                == UploadActionView::CloseFile
        }),
{
}

/// A document that arrived whole is moved to its place, announced, checked and
/// submitted from there, deleted, and its receipt confirmed.
pub proof fn law_whole_documents_are_printed(
    root: Seq<char>,
    job_id: Seq<char>,
    digest: Seq<u8>,
    size: u64,
    writer: SpoolWriterView,
)
    requires
        writer.received.len() == writer.expected_size,
        sha256(writer.received) == writer.expected_sha256,
    ensures
        ({
            let done = UploadReplyView::Finished(Ok(()));
            let moving = (UploadFlowView::Closing { job_id, digest, size, writer }).resumed(
                root,
                done,
            );
            let announcing = moving.resumed(root, done);
            let validating = announcing.resumed(root, done);
            let submitting = validating.resumed(root, done);
            let deleting = submitting.resumed(root, done);
            &&& moving.action() == UploadActionView::MoveFile(writer.ready)
            &&& announcing.action() == UploadActionView::DocumentReceived(job_id, digest)
            &&& validating.action() == UploadActionView::MarkValid(job_id)
            &&& submitting.action() == UploadActionView::Submit(job_id, writer.ready)
            &&& deleting.action() == UploadActionView::DeleteReady(job_id)
            &&& deleting.resumed(
                root,
                UploadReplyView::Deleted,
            ).action() matches UploadActionView::Respond(result) && {
                &&& result.status matches Some(status) && status.code == ErrorCode::Success
                &&& result.job_id == job_id
                &&& result.received_bytes == size
                &&& result.sha256 == digest
            }
        }),
{
}

/// A document that is not as announced is not moved.
pub proof fn law_broken_documents_are_dropped(
    root: Seq<char>,
    job_id: Seq<char>,
    digest: Seq<u8>,
    size: u64,
    writer: SpoolWriterView,
)
    requires
        writer.received.len() != writer.expected_size || sha256(writer.received)
            != writer.expected_sha256,
    ensures
        (UploadFlowView::Closing { job_id, digest, size, writer }).resumed(
            root,
            UploadReplyView::Finished(Ok(())),
        ).action() matches UploadActionView::Abandon(error) && error is Invalid,
{
}

/// A failure to submit is answered and says why; any other failure ends the
/// upload without an answer.
pub proof fn law_failed_submissions_are_answered(
    root: Seq<char>,
    flow: UploadFlowView,
    error: PrintErrorView,
)
    ensures
        flow matches UploadFlowView::Submitting { job_id, digest, size, path } ==> (flow.resumed(
            root,
            UploadReplyView::Finished(Err(error)),
        ).action() matches UploadActionView::Respond(result) && {
            &&& result.status matches Some(status) && status.code == ErrorCode::Internal
                && status.message == error.text()
            &&& result.job_id == job_id
        }),
        flow.action() is ConsumeTicket || flow.action() is BeginReceiving || flow.action()
            is CreateFile || flow.action() is WriteFile || flow.action() is CloseFile
            || flow.action() is MoveFile || flow.action() is DocumentReceived || flow.action()
            is MarkValid ==> flow.resumed(root, UploadReplyView::Finished(Err(error))).action()
            == UploadActionView::Abandon(error),
        flow.action() is FindJob ==> flow.resumed(root, UploadReplyView::Job(Err(error))).action()
            == UploadActionView::Abandon(error),
        flow.action() is ReadChunk ==> flow.resumed(
            root,
            UploadReplyView::Chunk(Err(error)),
        ).action() == UploadActionView::Abandon(error),
        flow.action() is DocumentExists ==> flow.resumed(
            root,
            UploadReplyView::Exists(Err(error)),
        ).action() == UploadActionView::Abandon(error),
{
}

/// The document of a job has its place under the root of the spool, among
/// those that are ready, if the job's identifier can name a file.
pub proof fn law_documents_have_their_place(root: Seq<char>, job_id: Seq<char>)
    ensures
        is_uuid_text(job_id) ==> document_path(root, job_id) == Ok::<SpoolPathView, PrintErrorView>(
            SpoolPathView {
                root,
                area: SpoolArea::Ready,
                file_name: job_id + ".document"@,
            },
        ),
        !is_uuid_text(job_id) ==> (document_path(root, job_id) matches Err(error) && error
            is Invalid),
        SpoolArea::Receiving.label() == "receiving"@,
        SpoolArea::Ready.label() == "ready"@,
        SpoolArea::Failed.label() == "failed"@,
{
}

/// The receipt of a document starts empty, with what the job says of it.
pub proof fn law_reception_starts_empty(root: Seq<char>, job: PrintJobView)
    requires
        is_uuid_text(job.id),
    ensures
        reception_start(root, job, false) matches Ok(writer) && {
            &&& writer.received.len() == 0
            &&& writer.expected_size == job.document.size_bytes
            &&& writer.expected_sha256 == job.document.sha256
            &&& writer.ready.area == SpoolArea::Ready
            &&& writer.receiving.area == SpoolArea::Receiving
        },
        reception_start(root, job, true) is Err,
{
}

/// A document that is gone already counts as deleted; any other outcome is
/// passed on.
pub proof fn law_deletion_is_certain(
    removed: core::result::Result<(), PrintErrorView>,
    message: Seq<char>,
)
    ensures
        deleted(Ok(())) is Ok,
        deleted(Err(PrintErrorView::Io(IoErrorKind::NotFound, message))) is Ok,
        !(removed matches Err(PrintErrorView::Io(IoErrorKind::NotFound, _))) ==> deleted(removed)
            == removed,
{
}

/// Exactly the user and the system get access, and nothing is inherited; for a
/// directory this holds of what is in it too.
pub proof fn law_spool_is_private(username: Seq<char>)
    ensures
        private_grants(username, true) == seq![
            "/inheritance:r"@,
            "/grant:r"@,
            username + ":(OI)(CI)F"@,
            "SYSTEM:(OI)(CI)F"@,
        ],
        private_grants(username, false) == seq![
            "/inheritance:r"@,
            "/grant:r"@,
            username + ":F"@,
            "SYSTEM:F"@,
        ],
{
}

/// A stream is taken for an upload exactly if it says so.
pub proof fn law_streams_say_what_they_are(kind: u8, upload_kind: u8)
    ensures
        stream_kind_check(kind, upload_kind) is Ok <==> kind == upload_kind,
{
}

/// What is reported of an upload that stands still, and how long it may take:
/// five seconds for each step before the document, half a minute for each
/// piece, and ten minutes in all.
pub proof fn law_standstills_are_reported(stall: UploadStall, subject: Seq<char>)
    ensures
        stall == UploadStall::NoCapacity ==> stall.report()
            == "print upload capacity wait timed out"@,
        stall == UploadStall::Stopping ==> stall.report() == "print upload service is stopping"@,
        stall == UploadStall::Setup ==> stall.report() == "print upload setup timed out"@,
        stall == UploadStall::Metadata ==> stall.report() == "print upload metadata timed out"@,
        stall == UploadStall::Idle ==> stall.report() == "print upload idle timeout"@,
        early_end(subject) == PrintErrorView::Invalid(
            subject + " ended before its declared size"@,
        ),
        MAX_UPLOADS == 4,
        PRINT_UPLOAD_SETUP_TIMEOUT_MS == 5_000,
        PRINT_UPLOAD_IDLE_TIMEOUT_MS == 30_000,
        PRINT_UPLOAD_TOTAL_TIMEOUT_MS == 600_000,
{
}

/// An upload for something that cannot name a job ends at once.
pub proof fn law_uploads_need_a_job(source: Seq<char>, open: PrintDocumentOpenView)
    requires
        !valid_id(open.job_id),
    ensures
        upload_start(source, open).action() is Abandon,
        parsed_id("print job id"@, open.job_id) is Err,
{
}

} // verus!
