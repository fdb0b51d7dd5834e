//! Submitting jobs to the printers of other devices.
use vstd::prelude::*;
use vstd::string::*;

use crate::domain::id::{parsed_id, ClientJobId, PrintJobId};
use crate::domain::job::{
    PrintDocument, PrintDocumentView, PrintJobState, PrintOptions, PrintOptionsView,
};
use crate::error::{outcome, PrintError, PrintErrorView, PrintResult};
use crate::hash::{digest, sha256};
use crate::infrastructure::messages::{
    PrintCreateJobRequest, PrintCreateJobRequestView, PrintDocumentOpen, PrintDocumentOpenView,
    PrintServerFrame, PrintServerFrameView, WireJobState,
};
use crate::infrastructure::quic::printers::{RemotePrinter, RemotePrinterView};
use crate::infrastructure::quic::replies::{
    answer_to, correlate, job_answer, require_job_result, require_upload_ticket, ticket_check,
};
use crate::infrastructure::wire::{
    document_message, encode_document, encode_options, options_message,
};
use crate::text::bytes_between;
use crate::unique::{is_random_text, law_random_text, random_text};

verus! {

/// A document that is to be printed, and the request for it.
pub struct Submission {
    pub document: PrintDocument,
    pub request: PrintCreateJobRequest,
}

pub struct SubmissionView {
    pub document: PrintDocumentView,
    pub request: PrintCreateJobRequestView,
}

impl View for Submission {
    type V = SubmissionView;

    open spec fn view(&self) -> SubmissionView {
        SubmissionView { document: self.document@, request: self.request@ }
    }
}

/// The PDF document of this name, size and digest.
pub open spec fn pdf_document(
    name: Seq<char>,
    size_bytes: u64,
    digest: Seq<u8>,
) -> PrintDocumentView {
    PrintDocumentView { name, media_type: "application/pdf"@, size_bytes, sha256: digest }
}

/// The request to print a document.
pub open spec fn submission(
    remote: RemotePrinterView,
    client_job_id: Seq<char>,
    document: PrintDocumentView,
    options: PrintOptionsView,
) -> core::result::Result<SubmissionView, PrintErrorView> {
    match options.validation() {
        Err(error) => Err(error),
        Ok(_) => match document.validation() {
            Err(error) => Err(error),
            Ok(_) => Ok(
                SubmissionView {
                    document,
                    request: PrintCreateJobRequestView {
                        client_job_id,
                        printer_share_id: remote.printer.share_id,
                        document: Some(document_message(document)),
                        options: Some(options_message(options)),
                    },
                },
            ),
        },
    }
}

/// The request to print a PDF document of this name, size and digest.
pub fn prepare_file(
    remote: &RemotePrinter,
    client_job_id: &ClientJobId,
    document_name: &str,
    document_size: u64,
    document_sha256: [u8; 32],
    options: &PrintOptions,
) -> (r: PrintResult<Submission>)
    ensures
        outcome(r) == submission(
            remote@,
            client_job_id@,
            pdf_document(document_name@, document_size, document_sha256@),
            options@,
        ),
{
    match options.validate() {
        Ok(_) => {},
        Err(error) => {
            return Err(error);
        },
    }
    let document = PrintDocument {
        name: document_name.to_string(),
        media_type: "application/pdf".to_string(),
        size_bytes: document_size,
        sha256: document_sha256,
    };
    match document.validate() {
        Ok(_) => {},
        Err(error) => {
            return Err(error);
        },
    }
    let request = PrintCreateJobRequest {
        client_job_id: client_job_id.to_string(),
        printer_share_id: remote.printer.share_id.to_string(),
        document: Some(encode_document(&document)),
        options: Some(encode_options(options)),
    };
    Ok(Submission { document, request })
}

/// The request to print a PDF document that is in memory.
pub fn prepare_bytes(
    remote: &RemotePrinter,
    client_job_id: &ClientJobId,
    document_name: &str,
    bytes: &[u8],
    options: &PrintOptions,
) -> (r: PrintResult<Submission>)
    ensures
        outcome(r) == submission(
            remote@,
            client_job_id@,
            pdf_document(document_name@, bytes@.len() as u64, sha256(bytes@)),
            options@,
        ),
{
    prepare_file(remote, client_job_id, document_name, bytes.len() as u64, digest(bytes), options)
}

/// A name under which a new job can be submitted.
pub fn fresh_client_job_id() -> (r: PrintResult<ClientJobId>)
    ensures
        r matches Ok(id) && is_random_text(id@),
{
    let text = random_text();
    proof {
        law_random_text(text@);
    }
    ClientJobId::parse(text.as_str())
}

/// The name of a document, given the name of its file.
pub fn document_name(file_name: Option<&str>) -> (r: String)
    ensures
        r@ == match file_name {
            Some(name) => name@,
            None => "document.pdf"@,
        },
{
    match file_name {
        Some(name) => name.to_string(),
        None => "document.pdf".to_string(),
    }
}

/// Why a file of this size cannot be sent, if it cannot.
pub open spec fn size_check(size: u64, limit: u64) -> core::result::Result<(), PrintErrorView> {
    if size > limit {
        Err(PrintErrorView::Invalid("print document is too large"@))
    } else {
        Ok(())
    }
}

/// Checks that a file of this size can be sent at all.
pub fn check_document_size(size: u64, limit: u64) -> (r: PrintResult<()>)
    ensures
        outcome(r) == size_check(size, limit),
{
    if size > limit {
        return Err(PrintError::Invalid("print document is too large".to_string()));
    }
    Ok(())
}

/// How a document gets to the other device.
#[derive(Debug, Clone, Copy, PartialEq, Eq, Structural)]
pub enum SubmissionKind {
    Bytes,
    File,
}

impl SubmissionKind {
    /// How messages speak of it.
    pub open spec fn verb(self) -> Seq<char> {
        match self {
            SubmissionKind::Bytes => "uploaded"@,
            SubmissionKind::File => "submitted"@,
        }
    }
}

/// What follows once the other device has taken a job.
pub enum SubmissionStep {
    /// It waits for the document.
    Upload { job_id: PrintJobId, ticket: Vec<u8> },
    /// It has the document already.
    Accepted(PrintJobId),
}

pub enum SubmissionStepView {
    Upload { job_id: Seq<char>, ticket: Seq<u8> },
    Accepted(Seq<char>),
}

impl View for SubmissionStep {
    type V = SubmissionStepView;

    open spec fn view(&self) -> SubmissionStepView {
        match *self {
            SubmissionStep::Upload { job_id, ticket } => SubmissionStepView::Upload {
                job_id: job_id@,
                ticket: ticket@,
            },
            SubmissionStep::Accepted(job_id) => SubmissionStepView::Accepted(job_id@),
        }
    }
}

/// How messages name the state of a job that takes no document.
pub open spec fn state_label(state: WireJobState) -> Seq<char> {
    match state {
        WireJobState::Known(state) => state.label(),
        _ => "Unspecified"@,
    }
}

/// What the answer to the request to print a document means.
pub open spec fn creation_step(
    frame: PrintServerFrameView,
    request_id: u64,
    kind: SubmissionKind,
) -> core::result::Result<SubmissionStepView, PrintErrorView> {
    match answer_to(frame, request_id) {
        Err(error) => Err(error),
        Ok(body) => match job_answer(body) {
            Err(error) => Err(error),
            Ok(result) => match result.job {
                None => Err(PrintErrorView::Backend("print job id is missing"@)),
                Some(job) => match parsed_id("print job id"@, job.job_id) {
                    Err(error) => Err(error),
                    Ok(job_id) => match job.state {
                        WireJobState::Known(
                            PrintJobState::Offered | PrintJobState::Receiving,
                        ) => match ticket_check(result) {
                            Err(error) => Err(error),
                            Ok(ticket) => Ok(SubmissionStepView::Upload { job_id, ticket }),
                        },
                        WireJobState::Known(
                            PrintJobState::Queued
                            | PrintJobState::Printing
                            | PrintJobState::Completed,
                        ) => Ok(SubmissionStepView::Accepted(job_id)),
                        WireJobState::Undefined => Err(
                            PrintErrorView::Backend("remote print job state is invalid"@),
                        ),
                        state => Err(
                            PrintErrorView::InvalidState(
                                "remote print job cannot be "@ + kind.verb() + " in state "@
                                    + state_label(state),
                            ),
                        ),
                    },
                },
            },
        },
    }
}

/// What the answer to the request to print a document means.
pub fn interpret_creation(frame: PrintServerFrame, request_id: u64, kind: SubmissionKind) -> (r:
    PrintResult<SubmissionStep>)
    ensures
        outcome(r) == creation_step(frame@, request_id, kind),
{
    let body = match correlate(frame, request_id) {
        Ok(body) => body,
        Err(error) => {
            return Err(error);
        },
    };
    let result = match require_job_result(body) {
        Ok(result) => result,
        Err(error) => {
            return Err(error);
        },
    };
    let (id, state) = match &result.job {
        Some(job) => (job.job_id.clone(), job.state),
        None => {
            return Err(PrintError::Backend("print job id is missing".to_string()));
        },
    };
    let job_id = match PrintJobId::parse(id.as_str()) {
        Ok(job_id) => job_id,
        Err(error) => {
            return Err(error);
        },
    };
    let label = match state {
        WireJobState::Undefined => {
            return Err(PrintError::Backend("remote print job state is invalid".to_string()));
        },
        WireJobState::Known(PrintJobState::Offered | PrintJobState::Receiving) => {
            return match require_upload_ticket(&result) {
                Ok(ticket) => Ok(SubmissionStep::Upload { job_id, ticket }),
                Err(error) => Err(error),
            };
        },
        WireJobState::Known(
            PrintJobState::Queued | PrintJobState::Printing | PrintJobState::Completed,
        ) => {
            return Ok(SubmissionStep::Accepted(job_id));
        },
        WireJobState::Known(state) => state.name(),
        WireJobState::Unspecified => "Unspecified",
    };
    let mut message = "remote print job cannot be ".to_string();
    message.append(
        match kind {
            SubmissionKind::Bytes => "uploaded",
            SubmissionKind::File => "submitted",
        },
    );
    message.append(" in state ");
    message.append(label);
    Err(PrintError::InvalidState(message))
}

/// The message that begins the upload of a document.
pub open spec fn opening(
    job_id: Seq<char>,
    document: PrintDocumentView,
    ticket: Seq<u8>,
) -> PrintDocumentOpenView {
    PrintDocumentOpenView {
        job_id,
        size_bytes: document.size_bytes,
        sha256: document.sha256,
        upload_ticket: ticket,
    }
}

/// The message that begins the upload of a document.
pub fn document_open(job_id: &PrintJobId, document: &PrintDocument, ticket: &Vec<u8>) -> (r:
    PrintDocumentOpen)
    ensures
        r@ == opening(job_id@, document@, ticket@),
{
    let sha256 = bytes_between(&document.sha256, 0, 32);
    assert(sha256@ =~= document.sha256@);
    let upload_ticket = bytes_between(ticket.as_slice(), 0, ticket.len());
    assert(upload_ticket@ =~= ticket@);
    PrintDocumentOpen {
        job_id: job_id.to_string(),
        size_bytes: document.size_bytes,
        sha256,
        upload_ticket,
    }
}

/// A document is uploaded only with a permission and only for a job that
/// waits for it; a job that the other device has printed, is printing or will
/// print is not uploaded again.
pub proof fn law_uploads_are_wanted(
    frame: PrintServerFrameView,
    request_id: u64,
    kind: SubmissionKind,
)
    ensures
        creation_step(frame, request_id, kind) matches Ok(SubmissionStepView::Upload {
            job_id,
            ticket,
        }) ==> {
            &&& ticket.len() > 0
            &&& answer_to(frame, request_id) is Ok
            &&& job_answer(frame.body) matches Ok(result) && (result.job matches Some(job) && (
            job.state == WireJobState::Known(PrintJobState::Offered) || job.state
                == WireJobState::Known(PrintJobState::Receiving)))
        },
{
}

} // verus!
