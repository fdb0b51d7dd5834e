//! Receiving the document of a job.
use vstd::prelude::*;
use vstd::string::*;

use crate::domain::id::{parsed_id, DeviceId, PrintJobId};
use crate::domain::job::{PrintJob, PrintJobView};
use crate::error::{optional, outcome, plain, PrintError, PrintErrorView, PrintResult};
use crate::hash::sha256;
use crate::infrastructure::messages::{
    ErrorCode, PrintDocumentChunk, PrintDocumentChunkView, PrintDocumentOpen, PrintDocumentOpenView,
    PrintDocumentUploadResult, PrintDocumentUploadResultView,
};
use crate::infrastructure::quic::replies::{
    error_status, failure_status, ok_status, success_status,
};
use crate::infrastructure::spool::{
    complete_path, job_id_check, reception_start, SpoolDirectory, SpoolPath, SpoolPathView,
    SpoolWriter, SpoolWriterView,
};
use crate::model::opt;
use crate::text::{bytes_between, same_bytes};

verus! {

/// How many documents are received at a time.
pub const MAX_UPLOADS: usize = 4;

/// How long each step before the first message of a document may take, in
/// milliseconds.
pub const PRINT_UPLOAD_SETUP_TIMEOUT_MS: u64 = 5_000;

/// How long the next message of a document may take, in milliseconds.
pub const PRINT_UPLOAD_IDLE_TIMEOUT_MS: u64 = 30_000;

/// How long an upload may take in all, in milliseconds.
pub const PRINT_UPLOAD_TOTAL_TIMEOUT_MS: u64 = 600_000;

/// Why an upload came to a standstill.
#[derive(Debug, Clone, Copy, PartialEq, Eq, Structural)]
pub enum UploadStall {
    NoCapacity,
    Stopping,
    Setup,
    Metadata,
    Idle,
}

impl UploadStall {
    /// What is reported of the standstill.
    pub open spec fn report(self) -> Seq<char> {
        match self {
            UploadStall::NoCapacity => "print upload capacity wait timed out"@,
            UploadStall::Stopping => "print upload service is stopping"@,
            UploadStall::Setup => "print upload setup timed out"@,
            UploadStall::Metadata => "print upload metadata timed out"@,
            UploadStall::Idle => "print upload idle timeout"@,
        }
    }
}

/// What is reported of a standstill.
pub fn stall_error(stall: UploadStall) -> (r: PrintError)
    ensures
        r@ == PrintErrorView::Backend(stall.report()),
{
    PrintError::Backend(
        match stall {
            UploadStall::NoCapacity => "print upload capacity wait timed out",
            UploadStall::Stopping => "print upload service is stopping",
            UploadStall::Setup => "print upload setup timed out",
            UploadStall::Metadata => "print upload metadata timed out",
            UploadStall::Idle => "print upload idle timeout",
        }.to_string(),
    )
}

/// What is wrong with a stream that is not for the upload of a document.
pub open spec fn stream_kind_check(kind: u8, upload_kind: u8) -> core::result::Result<
    (),
    PrintErrorView,
> {
    if kind == upload_kind {
        Ok(())
    } else {
        Err(PrintErrorView::Invalid("unexpected print upload stream kind"@))
    }
}

/// Checks that a stream is for the upload of a document.
pub fn check_stream_kind(kind: u8, upload_kind: u8) -> (r: PrintResult<()>)
    ensures
        outcome(r) == stream_kind_check(kind, upload_kind),
{
    if kind != upload_kind {
        return Err(PrintError::Invalid("unexpected print upload stream kind".to_string()));
    }
    Ok(())
}

/// What an upload asks for.
pub enum UploadAction<'a> {
    FindJob(&'a PrintJobId),
    /// Present the device's permission to upload.
    ConsumeTicket(&'a DeviceId, &'a PrintJobId, &'a Vec<u8>),
    BeginReceiving(&'a PrintJobId),
    /// Is there a document at this place?
    DocumentExists(&'a SpoolPath),
    /// Create a new, empty file.
    CreateFile(&'a SpoolPath),
    ReadChunk,
    /// Append to the file.
    WriteFile(&'a Vec<u8>),
    /// Make sure that the file is stored, and close it.
    CloseFile,
    /// Move the file, now complete, to this place.
    MoveFile(&'a SpoolPath),
    DocumentReceived(&'a PrintJobId, &'a [u8; 32]),
    MarkValid(&'a PrintJobId),
    Submit(&'a PrintJobId, &'a SpoolPath),
    /// Delete the document of a job; a failure is of no consequence.
    DeleteReady(&'a PrintJobId),
    /// Send the answer: the upload is over.
    Respond(&'a PrintDocumentUploadResult),
    /// The upload has failed: remove what was received and answer nothing.
    Abandon(&'a PrintError),
}

pub enum UploadActionView {
    FindJob(Seq<char>),
    ConsumeTicket(Seq<char>, Seq<char>, Seq<u8>),
    BeginReceiving(Seq<char>),
    DocumentExists(SpoolPathView),
    CreateFile(SpoolPathView),
    ReadChunk,
    WriteFile(Seq<u8>),
    CloseFile,
    MoveFile(SpoolPathView),
    DocumentReceived(Seq<char>, Seq<u8>),
    MarkValid(Seq<char>),
    Submit(Seq<char>, SpoolPathView),
    DeleteReady(Seq<char>),
    Respond(PrintDocumentUploadResultView),
    Abandon(PrintErrorView),
}

impl<'a> View for UploadAction<'a> {
    type V = UploadActionView;

    open spec fn view(&self) -> UploadActionView {
        match *self {
            UploadAction::FindJob(id) => UploadActionView::FindJob(id@),
            UploadAction::ConsumeTicket(device, id, token) => UploadActionView::ConsumeTicket(
                device@,
                id@,
                token@,
            ),
            UploadAction::BeginReceiving(id) => UploadActionView::BeginReceiving(id@),
            UploadAction::DocumentExists(path) => UploadActionView::DocumentExists(path@),
            UploadAction::CreateFile(path) => UploadActionView::CreateFile(path@),
            UploadAction::ReadChunk => UploadActionView::ReadChunk,
            UploadAction::WriteFile(data) => UploadActionView::WriteFile(data@),
            UploadAction::CloseFile => UploadActionView::CloseFile,
            UploadAction::MoveFile(path) => UploadActionView::MoveFile(path@),
            UploadAction::DocumentReceived(id, digest) => UploadActionView::DocumentReceived(
                id@,
                digest@,
            ),
            UploadAction::MarkValid(id) => UploadActionView::MarkValid(id@),
            UploadAction::Submit(id, path) => UploadActionView::Submit(id@, path@),
            UploadAction::DeleteReady(id) => UploadActionView::DeleteReady(id@),
            UploadAction::Respond(result) => UploadActionView::Respond(result@),
            UploadAction::Abandon(error) => UploadActionView::Abandon(error@),
        }
    }
}

/// An answer to an [`UploadAction`].
pub enum UploadReply {
    Job(PrintResult<Option<PrintJob>>),
    Exists(PrintResult<bool>),
    Chunk(PrintResult<PrintDocumentChunk>),
    Deleted,
    /// Of everything that either succeeds or fails.
    Finished(PrintResult<()>),
}

pub enum UploadReplyView {
    Job(core::result::Result<Option<PrintJobView>, PrintErrorView>),
    Exists(core::result::Result<bool, PrintErrorView>),
    Chunk(core::result::Result<PrintDocumentChunkView, PrintErrorView>),
    Deleted,
    Finished(core::result::Result<(), PrintErrorView>),
}

impl View for UploadReply {
    type V = UploadReplyView;

    open spec fn view(&self) -> UploadReplyView {
        match *self {
            UploadReply::Job(r) => UploadReplyView::Job(optional(r)),
            UploadReply::Exists(r) => UploadReplyView::Exists(plain(r)),
            UploadReply::Chunk(r) => UploadReplyView::Chunk(outcome(r)),
            UploadReply::Deleted => UploadReplyView::Deleted,
            UploadReply::Finished(r) => UploadReplyView::Finished(outcome(r)),
        }
    }
}

/// Where an upload stands.
pub enum UploadFlow {
    Lookup { source: DeviceId, open: PrintDocumentOpen, job_id: PrintJobId },
    Admitting { job: PrintJob, job_id: PrintJobId, token: Vec<u8> },
    Beginning { job: PrintJob, job_id: PrintJobId },
    Checking { job: PrintJob, job_id: PrintJobId, place: SpoolPath },
    Creating { job_id: PrintJobId, digest: [u8; 32], size: u64, writer: SpoolWriter },
    Reading { job_id: PrintJobId, digest: [u8; 32], size: u64, writer: SpoolWriter },
    Writing {
        job_id: PrintJobId,
        digest: [u8; 32],
        size: u64,
        writer: SpoolWriter,
        chunk: PrintDocumentChunk,
    },
    Closing { job_id: PrintJobId, digest: [u8; 32], size: u64, writer: SpoolWriter },
    Moving { job_id: PrintJobId, digest: [u8; 32], size: u64, path: SpoolPath },
    Announcing { job_id: PrintJobId, digest: [u8; 32], size: u64, path: SpoolPath },
    Validating { job_id: PrintJobId, digest: [u8; 32], size: u64, path: SpoolPath },
    Submitting { job_id: PrintJobId, digest: [u8; 32], size: u64, path: SpoolPath },
    Deleting { job_id: PrintJobId, digest: [u8; 32], size: u64 },
    Answered(PrintDocumentUploadResult),
    Failed(PrintError),
}

pub enum UploadFlowView {
    Lookup { source: Seq<char>, open: PrintDocumentOpenView, job_id: Seq<char> },
    Admitting { job: PrintJobView, job_id: Seq<char>, token: Seq<u8> },
    Beginning { job: PrintJobView, job_id: Seq<char> },
    Checking { job: PrintJobView, job_id: Seq<char>, place: SpoolPathView },
    Creating { job_id: Seq<char>, digest: Seq<u8>, size: u64, writer: SpoolWriterView },
    Reading { job_id: Seq<char>, digest: Seq<u8>, size: u64, writer: SpoolWriterView },
    Writing {
        job_id: Seq<char>,
        digest: Seq<u8>,
        size: u64,
        writer: SpoolWriterView,
        chunk: PrintDocumentChunkView,
    },
    Closing { job_id: Seq<char>, digest: Seq<u8>, size: u64, writer: SpoolWriterView },
    Moving { job_id: Seq<char>, digest: Seq<u8>, size: u64, path: SpoolPathView },
    Announcing { job_id: Seq<char>, digest: Seq<u8>, size: u64, path: SpoolPathView },
    Validating { job_id: Seq<char>, digest: Seq<u8>, size: u64, path: SpoolPathView },
    Submitting { job_id: Seq<char>, digest: Seq<u8>, size: u64, path: SpoolPathView },
    Deleting { job_id: Seq<char>, digest: Seq<u8>, size: u64 },
    Answered(PrintDocumentUploadResultView),
    Failed(PrintErrorView),
}

impl View for UploadFlow {
    type V = UploadFlowView;

    open spec fn view(&self) -> UploadFlowView {
        match *self {
            UploadFlow::Lookup { source, open, job_id } => UploadFlowView::Lookup {
                source: source@,
                open: open@,
                job_id: job_id@,
            },
            UploadFlow::Admitting { job, job_id, token } => UploadFlowView::Admitting {
                job: job@,
                job_id: job_id@,
                token: token@,
            },
            UploadFlow::Beginning { job, job_id } => UploadFlowView::Beginning {
                job: job@,
                job_id: job_id@,
            },
            UploadFlow::Checking { job, job_id, place } => UploadFlowView::Checking {
                job: job@,
                job_id: job_id@,
                place: place@,
            },
            UploadFlow::Creating { job_id, digest, size, writer } => UploadFlowView::Creating {
                job_id: job_id@,
                digest: digest@,
                size,
                writer: writer@,
            },
            UploadFlow::Reading { job_id, digest, size, writer } => UploadFlowView::Reading {
                job_id: job_id@,
                digest: digest@,
                size,
                writer: writer@,
            },
            UploadFlow::Writing { job_id, digest, size, writer, chunk } => {
                UploadFlowView::Writing {
                    job_id: job_id@,
                    digest: digest@,
                    size,
                    writer: writer@,
                    chunk: chunk@,
                }
            },
            UploadFlow::Closing { job_id, digest, size, writer } => UploadFlowView::Closing {
                job_id: job_id@,
                digest: digest@,
                size,
                writer: writer@,
            },
            UploadFlow::Moving { job_id, digest, size, path } => UploadFlowView::Moving {
                job_id: job_id@,
                digest: digest@,
                size,
                path: path@,
            },
            UploadFlow::Announcing { job_id, digest, size, path } => UploadFlowView::Announcing {
                job_id: job_id@,
                digest: digest@,
                size,
                path: path@,
            },
            UploadFlow::Validating { job_id, digest, size, path } => UploadFlowView::Validating {
                job_id: job_id@,
                digest: digest@,
                size,
                path: path@,
            },
            UploadFlow::Submitting { job_id, digest, size, path } => UploadFlowView::Submitting {
                job_id: job_id@,
                digest: digest@,
                size,
                path: path@,
            },
            UploadFlow::Deleting { job_id, digest, size } => UploadFlowView::Deleting {
                job_id: job_id@,
                digest: digest@,
                size,
            },
            UploadFlow::Answered(result) => UploadFlowView::Answered(result@),
            UploadFlow::Failed(error) => UploadFlowView::Failed(error@),
        }
    }
}

/// The first step of an upload by `source`.
pub open spec fn upload_start(source: Seq<char>, open: PrintDocumentOpenView) -> UploadFlowView {
    match parsed_id("print job id"@, open.job_id) {
        Ok(job_id) => UploadFlowView::Lookup { source, open, job_id },
        Err(error) => UploadFlowView::Failed(error),
    }
}

/// The flow once the job is known: it must belong to the device, and be the
/// one whose document was announced.
pub open spec fn after_lookup(
    source: Seq<char>,
    open: PrintDocumentOpenView,
    job_id: Seq<char>,
    found: Option<PrintJobView>,
) -> UploadFlowView {
    match found {
        None => UploadFlowView::Failed(PrintErrorView::NotFound(job_id)),
        Some(job) => if job.source_device_id != source {
            UploadFlowView::Failed(
                PrintErrorView::Invalid("print job belongs to a different device"@),
            )
        } else if open.size_bytes != job.document.size_bytes || open.sha256
            != job.document.sha256 {
            UploadFlowView::Failed(
                PrintErrorView::Invalid("print upload metadata differs from job"@),
            )
        } else {
            UploadFlowView::Admitting { job, job_id, token: open.upload_ticket }
        },
    }
}

/// The flow that reads on, or closes the file when all has arrived.
pub open spec fn receiving(
    job_id: Seq<char>,
    digest: Seq<u8>,
    size: u64,
    writer: SpoolWriterView,
) -> UploadFlowView {
    if writer.received.len() < size {
        UploadFlowView::Reading { job_id, digest, size, writer }
    } else {
        UploadFlowView::Closing { job_id, digest, size, writer }
    }
}

/// The answer to an upload that came to its end.
pub open spec fn upload_result(
    job_id: Seq<char>,
    digest: Seq<u8>,
    size: u64,
    submitted: core::result::Result<(), PrintErrorView>,
) -> PrintDocumentUploadResultView {
    PrintDocumentUploadResultView {
        status: Some(
            match submitted {
                Ok(_) => success_status(),
                Err(error) => failure_status(ErrorCode::Internal, error.text()),
            },
        ),
        job_id,
        received_bytes: size,
        sha256: digest,
    }
}

impl UploadFlowView {
    /// What the upload asks for.
    pub open spec fn action(self) -> UploadActionView {
        match self {
            UploadFlowView::Lookup { job_id, .. } => UploadActionView::FindJob(job_id),
            UploadFlowView::Admitting { job, job_id, token } => UploadActionView::ConsumeTicket(
                job.source_device_id,
                job_id,
                token,
            ),
            UploadFlowView::Beginning { job_id, .. } => UploadActionView::BeginReceiving(job_id),
            UploadFlowView::Checking { place, .. } => UploadActionView::DocumentExists(place),
            UploadFlowView::Creating { writer, .. } => UploadActionView::CreateFile(
                writer.receiving,
            ),
            UploadFlowView::Reading { .. } => UploadActionView::ReadChunk,
            UploadFlowView::Writing { chunk, .. } => UploadActionView::WriteFile(chunk.data),
            UploadFlowView::Closing { .. } => UploadActionView::CloseFile,
            UploadFlowView::Moving { path, .. } => UploadActionView::MoveFile(path),
            UploadFlowView::Announcing { job_id, digest, .. } => {
                UploadActionView::DocumentReceived(job_id, digest)
            },
            UploadFlowView::Validating { job_id, .. } => UploadActionView::MarkValid(job_id),
            UploadFlowView::Submitting { job_id, path, .. } => UploadActionView::Submit(
                job_id,
                path,
            ),
            UploadFlowView::Deleting { job_id, .. } => UploadActionView::DeleteReady(job_id),
            UploadFlowView::Answered(result) => UploadActionView::Respond(result),
            UploadFlowView::Failed(error) => UploadActionView::Abandon(error),
        }
    }

    /// The flow after something that it asked for has succeeded.
    pub open spec fn succeeded(self, root: Seq<char>) -> Self {
        match self {
            UploadFlowView::Admitting { job, job_id, token } => UploadFlowView::Beginning {
                job,
                job_id,
            },
            UploadFlowView::Beginning { job, job_id } => match job_id_check(job.id) {
                Ok(_) => UploadFlowView::Checking {
                    job,
                    job_id,
                    place: complete_path(root, job.id),
                },
                Err(error) => UploadFlowView::Failed(error),
            },
            UploadFlowView::Creating { job_id, digest, size, writer } => receiving(
                job_id,
                digest,
                size,
                writer,
            ),
            UploadFlowView::Writing { job_id, digest, size, writer, chunk } => receiving(
                job_id,
                digest,
                size,
                writer.with_chunk(chunk.data),
            ),
            UploadFlowView::Closing { job_id, digest, size, writer } => match writer.finished() {
                Ok(path) => UploadFlowView::Moving { job_id, digest, size, path },
                Err(error) => UploadFlowView::Failed(error),
            },
            UploadFlowView::Moving { job_id, digest, size, path } => UploadFlowView::Announcing {
                job_id,
                digest,
                size,
                path,
            },
            UploadFlowView::Announcing { job_id, digest, size, path } => {
                UploadFlowView::Validating { job_id, digest, size, path }
            },
            UploadFlowView::Validating { job_id, digest, size, path } => {
                UploadFlowView::Submitting { job_id, digest, size, path }
            },
            UploadFlowView::Submitting { job_id, digest, size, path } => UploadFlowView::Deleting {
                job_id,
                digest,
                size,
            },
            _ => self,
        }
    }

    /// Whether the flow waits for something that either succeeds or fails.
    pub open spec fn waits(self) -> bool {
        match self {
            UploadFlowView::Admitting { .. }
            | UploadFlowView::Beginning { .. }
            | UploadFlowView::Creating { .. }
            | UploadFlowView::Writing { .. }
            | UploadFlowView::Closing { .. }
            | UploadFlowView::Moving { .. }
            | UploadFlowView::Announcing { .. }
            | UploadFlowView::Validating { .. }
            | UploadFlowView::Submitting { .. } => true,
            _ => false,
        }
    }

    /// The flow after something that it asked for has failed. Only a failure
    /// to submit is answered.
    pub open spec fn disappointed(self, error: PrintErrorView) -> Self {
        match self {
            UploadFlowView::Submitting { job_id, digest, size, path } => UploadFlowView::Answered(
                upload_result(job_id, digest, size, Err(error)),
            ),
            _ => UploadFlowView::Failed(error),
        }
    }

    /// The flow after `reply`, with documents kept below `root`. An answer to
    /// another question changes nothing.
    pub open spec fn resumed(self, root: Seq<char>, reply: UploadReplyView) -> Self {
        match (self, reply) {
            (UploadFlowView::Lookup { .. }, UploadReplyView::Job(Err(error))) => {
                UploadFlowView::Failed(error)
            },
            (
                UploadFlowView::Lookup { source, open, job_id },
                UploadReplyView::Job(Ok(found)),
            ) => after_lookup(source, open, job_id, found),
            (UploadFlowView::Checking { .. }, UploadReplyView::Exists(Err(error))) => {
                UploadFlowView::Failed(error)
            },
            (
                UploadFlowView::Checking { job, job_id, place },
                UploadReplyView::Exists(Ok(exists)),
            ) => match reception_start(root, job, exists) {
                Ok(writer) => UploadFlowView::Creating {
                    job_id,
                    digest: job.document.sha256,
                    size: job.document.size_bytes,
                    writer,
                },
                Err(error) => UploadFlowView::Failed(error),
            },
            (UploadFlowView::Reading { .. }, UploadReplyView::Chunk(Err(error))) => {
                UploadFlowView::Failed(error)
            },
            (
                UploadFlowView::Reading { job_id, digest, size, writer },
                UploadReplyView::Chunk(Ok(chunk)),
            ) => match writer.chunk_check(chunk.offset, chunk.data) {
                Ok(_) => UploadFlowView::Writing { job_id, digest, size, writer, chunk },
                Err(error) => UploadFlowView::Failed(error),
            },
            (
                UploadFlowView::Deleting { job_id, digest, size },
                UploadReplyView::Deleted,
            ) => UploadFlowView::Answered(upload_result(job_id, digest, size, Ok(()))),
            (_, UploadReplyView::Finished(Ok(_))) => self.succeeded(root),
            (_, UploadReplyView::Finished(Err(error))) => if self.waits() {
                self.disappointed(error)
            } else {
                self
            },
            _ => self,
        }
    }

    /// No more has been received than was announced, the announced size and
    /// digest are those of the job, and what is about to be written fits.
    pub open spec fn sound(self) -> bool {
        match self {
            UploadFlowView::Creating { job_id, digest, size, writer } => writer.expected_size
                == size && writer.expected_sha256 == digest && writer.received.len() == 0,
            UploadFlowView::Reading { job_id, digest, size, writer } => writer.expected_size
                == size && writer.expected_sha256 == digest && writer.received.len() < size,
            UploadFlowView::Writing { job_id, digest, size, writer, chunk } => {
                writer.expected_size == size && writer.expected_sha256 == digest
                    && writer.chunk_check(chunk.offset, chunk.data) is Ok
            },
            UploadFlowView::Closing { job_id, digest, size, writer } => writer.expected_size
                == size && writer.expected_sha256 == digest && writer.received.len() >= size,
            _ => true,
        }
    }
}

fn receive_on(job_id: PrintJobId, digest: [u8; 32], size: u64, writer: SpoolWriter) -> (r:
    UploadFlow)
    requires
        writer.wf(),
        writer@.expected_size == size,
        writer@.expected_sha256 == digest@,
    ensures
        r.wf(),
        r@ == receiving(job_id@, digest@, size, writer@),
{
    if writer.received() < size {
        UploadFlow::Reading { job_id, digest, size, writer }
    } else {
        UploadFlow::Closing { job_id, digest, size, writer }
    }
}

fn answer(job_id: PrintJobId, digest: [u8; 32], size: u64, submitted: PrintResult<()>) -> (r:
    PrintDocumentUploadResult)
    ensures
        r@ == upload_result(job_id@, digest@, size, outcome(submitted)),
{
    let sha256 = bytes_between(&digest, 0, 32);
    assert(sha256@ =~= digest@);
    PrintDocumentUploadResult {
        status: Some(
            match submitted {
                Ok(_) => ok_status(),
                Err(error) => error_status(ErrorCode::Internal, error.to_string()),
            },
        ),
        job_id: job_id.into_string(),
        received_bytes: size,
        sha256,
    }
}

impl UploadFlow {
    /// The flow is sound, and so is the document that it holds.
    pub open spec fn wf(&self) -> bool {
        self@.sound() && match *self {
            UploadFlow::Creating { writer, .. } => writer.wf(),
            UploadFlow::Reading { writer, .. } => writer.wf(),
            UploadFlow::Writing { writer, .. } => writer.wf(),
            UploadFlow::Closing { writer, .. } => writer.wf(),
            _ => true,
        }
    }

    /// The first step of an upload by `source`.
    pub fn start(source: &DeviceId, open: PrintDocumentOpen) -> (r: Self)
        ensures
            r@ == upload_start(source@, open@),
            r.wf(),
    {
        match PrintJobId::parse(open.job_id.as_str()) {
            Ok(job_id) => UploadFlow::Lookup { source: source.clone(), open, job_id },
            Err(error) => UploadFlow::Failed(error),
        }
    }

    /// What the upload asks for.
    pub fn action(&self) -> (r: UploadAction<'_>)
        ensures
            r@ == self@.action(),
    {
        match self {
            UploadFlow::Lookup { job_id, .. } => UploadAction::FindJob(job_id),
            UploadFlow::Admitting { job, job_id, token } => UploadAction::ConsumeTicket(
                &job.source_device_id,
                job_id,
                token,
            ),
            UploadFlow::Beginning { job_id, .. } => UploadAction::BeginReceiving(job_id),
            UploadFlow::Checking { place, .. } => UploadAction::DocumentExists(place),
            UploadFlow::Creating { writer, .. } => UploadAction::CreateFile(
                writer.receiving_path(),
            ),
            UploadFlow::Reading { .. } => UploadAction::ReadChunk,
            UploadFlow::Writing { chunk, .. } => UploadAction::WriteFile(&chunk.data),
            UploadFlow::Closing { .. } => UploadAction::CloseFile,
            UploadFlow::Moving { path, .. } => UploadAction::MoveFile(path),
            UploadFlow::Announcing { job_id, digest, .. } => UploadAction::DocumentReceived(
                job_id,
                digest,
            ),
            UploadFlow::Validating { job_id, .. } => UploadAction::MarkValid(job_id),
            UploadFlow::Submitting { job_id, path, .. } => UploadAction::Submit(job_id, path),
            UploadFlow::Deleting { job_id, .. } => UploadAction::DeleteReady(job_id),
            UploadFlow::Answered(result) => UploadAction::Respond(result),
            UploadFlow::Failed(error) => UploadAction::Abandon(error),
        }
    }

    fn succeed(self, spool: &SpoolDirectory) -> (r: Self)
        requires
            self.wf(),
        ensures
            r@ == self@.succeeded(spool@),
            r.wf(),
    {
        match self {
            UploadFlow::Admitting { job, job_id, token: _ } => UploadFlow::Beginning {
                job,
                job_id,
            },
            UploadFlow::Beginning { job, job_id } => match spool.ready_path(&job.id) {
                Ok(place) => UploadFlow::Checking { job, job_id, place },
                Err(error) => UploadFlow::Failed(error),
            },
            UploadFlow::Creating { job_id, digest, size, writer } => receive_on(
                job_id,
                digest,
                size,
                writer,
            ),
            UploadFlow::Writing { job_id, digest, size, writer: open, chunk } => {
                let mut writer = open;
                match writer.write_chunk(chunk.offset, chunk.data.as_slice()) {
                    Ok(_) => receive_on(job_id, digest, size, writer),
                    Err(error) => UploadFlow::Failed(error),
                }
            },
            UploadFlow::Closing { job_id, digest, size, writer } => match writer.finish() {
                Ok(path) => UploadFlow::Moving { job_id, digest, size, path },
                Err(error) => UploadFlow::Failed(error),
            },
            UploadFlow::Moving { job_id, digest, size, path } => UploadFlow::Announcing {
                job_id,
                digest,
                size,
                path,
            },
            UploadFlow::Announcing { job_id, digest, size, path } => UploadFlow::Validating {
                job_id,
                digest,
                size,
                path,
            },
            UploadFlow::Validating { job_id, digest, size, path } => UploadFlow::Submitting {
                job_id,
                digest,
                size,
                path,
            },
            UploadFlow::Submitting { job_id, digest, size, path: _ } => UploadFlow::Deleting {
                job_id,
                digest,
                size,
            },
            other => other,
        }
    }

    fn disappoint(self, error: PrintError) -> (r: Self)
        requires
            self.wf(),
        ensures
            r@ == if self@.waits() {
                self@.disappointed(error@)
            } else {
                self@
            },
            r.wf(),
    {
        match self {
            UploadFlow::Submitting { job_id, digest, size, path: _ } => UploadFlow::Answered(
                answer(job_id, digest, size, Err(error)),
            ),
            UploadFlow::Admitting { .. }
            | UploadFlow::Beginning { .. }
            | UploadFlow::Creating { .. }
            | UploadFlow::Writing { .. }
            | UploadFlow::Closing { .. }
            | UploadFlow::Moving { .. }
            | UploadFlow::Announcing { .. }
            | UploadFlow::Validating { .. } => UploadFlow::Failed(error),
            other => other,
        }
    }

    fn take_job(
        source: DeviceId,
        open: PrintDocumentOpen,
        job_id: PrintJobId,
        found: Option<PrintJob>,
    ) -> (r: Self)
        ensures
            r@ == after_lookup(source@, open@, job_id@, opt(found)),
            r.wf(),
    {
        let job = match found {
            Some(job) => job,
            None => {
                return UploadFlow::Failed(PrintError::NotFound(job_id.to_string()));
            },
        };
        if !job.source_device_id.same(&source) {
            return UploadFlow::Failed(
                PrintError::Invalid("print job belongs to a different device".to_string()),
            );
        }
        if open.size_bytes != job.document.size_bytes || !same_bytes(
            open.sha256.as_slice(),
            &job.document.sha256,
        ) {
            return UploadFlow::Failed(
                PrintError::Invalid("print upload metadata differs from job".to_string()),
            );
        }
        UploadFlow::Admitting { job, job_id, token: open.upload_ticket }
    }

    /// Takes an answer and moves on.
    pub fn resume(self, spool: &SpoolDirectory, reply: UploadReply) -> (r: Self)
        requires
            self.wf(),
        ensures
            r@ == self@.resumed(spool@, reply@),
            r.wf(),
    {
        match reply {
            UploadReply::Finished(Ok(_)) => self.succeed(spool),
            UploadReply::Finished(Err(error)) => self.disappoint(error),
            UploadReply::Job(found) => match self {
                UploadFlow::Lookup { source, open, job_id } => match found {
                    Ok(found) => UploadFlow::take_job(source, open, job_id, found),
                    Err(error) => UploadFlow::Failed(error),
                },
                other => other,
            },
            UploadReply::Exists(exists) => match self {
                UploadFlow::Checking { job, job_id, place: _ } => match exists {
                    Ok(exists) => match spool.begin(&job, exists) {
                        Ok(writer) => UploadFlow::Creating {
                            job_id,
                            digest: job.document.sha256,
                            size: job.document.size_bytes,
                            writer,
                        },
                        Err(error) => UploadFlow::Failed(error),
                    },
                    Err(error) => UploadFlow::Failed(error),
                },
                other => other,
            },
            UploadReply::Chunk(chunk) => match self {
                UploadFlow::Reading { job_id, digest, size, writer } => match chunk {
                    Ok(chunk) => match writer.check_chunk(chunk.offset, chunk.data.as_slice()) {
                        Ok(_) => UploadFlow::Writing { job_id, digest, size, writer, chunk },
                        Err(error) => UploadFlow::Failed(error),
                    },
                    Err(error) => UploadFlow::Failed(error),
                },
                other => other,
            },
            UploadReply::Deleted => match self {
                UploadFlow::Deleting { job_id, digest, size } => UploadFlow::Answered(
                    answer(job_id, digest, size, Ok(())),
                ),
                other => other,
            },
        }
    }
}

/// An upload that goes ahead is for a job of the device that uploads, and
/// announces that job's document.
pub proof fn law_uploads_belong_to_device(
    source: Seq<char>,
    open: PrintDocumentOpenView,
    job_id: Seq<char>,
    found: Option<PrintJobView>,
)
    ensures
        after_lookup(source, open, job_id, found) matches UploadFlowView::Admitting {
            job,
            job_id: id,
            token,
        } ==> {
            &&& found == Some(job)
            &&& job.source_device_id == source
            &&& open.size_bytes == job.document.size_bytes
            &&& open.sha256 == job.document.sha256
            &&& token == open.upload_ticket
            &&& id == job_id
        },
{
}

/// A file is moved to its place only when it holds a whole document with the
/// announced digest, and only such a document is submitted.
pub proof fn law_only_whole_documents_are_moved(
    flow: UploadFlowView,
    root: Seq<char>,
    reply: UploadReplyView,
)
    requires
        flow.sound(),
    ensures
        flow.resumed(root, reply).sound(),
        flow.resumed(root, reply) is Moving && !(flow is Moving) ==> match flow {
            UploadFlowView::Closing { job_id, digest, size, writer } => writer.received.len()
                == size && sha256(writer.received) == digest,
            _ => false,
        },
        flow.resumed(root, reply).action() is Submit && !(flow is Submitting) ==> flow
            is Validating,
        flow.resumed(root, reply) is Validating && !(flow is Validating) ==> flow is Announcing,
        flow.resumed(root, reply) is Announcing && !(flow is Announcing) ==> flow is Moving,
{
}

/// What was received grows by what is written and by nothing else.
pub proof fn law_received_is_what_was_written(
    flow: UploadFlowView,
    root: Seq<char>,
    reply: UploadReplyView,
)
    requires
        flow.resumed(root, reply) != flow,
        flow.resumed(root, reply) is Reading || flow.resumed(root, reply) is Closing,
    ensures
        match flow {
            UploadFlowView::Writing { job_id, digest, size, writer, chunk } => flow.resumed(
                root,
                reply,
            ) == receiving(job_id, digest, size, writer.with_chunk(chunk.data)),
            UploadFlowView::Creating { job_id, digest, size, writer } => flow.resumed(root, reply)
                == receiving(job_id, digest, size, writer),
            _ => false,
        },
{
}

} // verus!
