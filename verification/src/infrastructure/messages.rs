//! The messages of the print protocol.
use vstd::prelude::*;

use crate::domain::capability::{
    ColorMode, DuplexMode, MediaSize, MediaSizeView, Orientation, PrintResolution,
};
use crate::domain::job::{PageRange, PrintJobState};
use crate::domain::printer::PrinterStatus;
use crate::model::{opt, views};

verus! {

/// Why a request failed.
#[derive(Debug, Clone, Copy, PartialEq, Eq, Structural)]
pub enum ErrorCode {
    Success,
    InvalidArgument,
    FailedPrecondition,
    NotFound,
    Conflict,
    Busy,
    ResourceExhausted,
    DeadlineExceeded,
    Unavailable,
    Unsupported,
    Internal,
    /// A code that plays no part in printing.
    Other,
}

/// What the sender of a failed request can do about it.
#[derive(Debug, Clone, Copy, PartialEq, Eq, Structural)]
pub enum RecoveryAction {
    Nothing,
    Retry,
    RetryWithBackoff,
    Refresh,
    ChangeRequest,
    /// An action that plays no part in printing.
    Other,
}

/// The state of a job in a message.
#[derive(Debug, Clone, Copy, PartialEq, Eq, Structural)]
pub enum WireJobState {
    Known(PrintJobState),
    Unspecified,
    /// A state that the protocol does not define.
    Undefined,
}

/// The outcome of a request.
#[derive(Debug, PartialEq, Eq)]
pub struct Status {
    pub code: ErrorCode,
    pub message: String,
    pub retryable: bool,
    pub retry_after_ms: u64,
    pub recovery_action: RecoveryAction,
    pub error_id: String,
}

pub struct StatusView {
    pub code: ErrorCode,
    pub message: Seq<char>,
    pub retryable: bool,
    pub retry_after_ms: u64,
    pub recovery_action: RecoveryAction,
    pub error_id: Seq<char>,
}

impl View for Status {
    type V = StatusView;

    open spec fn view(&self) -> StatusView {
        StatusView {
            code: self.code,
            message: self.message@,
            retryable: self.retryable,
            retry_after_ms: self.retry_after_ms,
            recovery_action: self.recovery_action,
            error_id: self.error_id@,
        }
    }
}

/// A document to be printed.
#[derive(Debug, PartialEq, Eq)]
pub struct PrintDocumentMetadata {
    pub name: String,
    pub media_type: String,
    pub size_bytes: u64,
    pub sha256: Vec<u8>,
}

pub struct PrintDocumentMetadataView {
    pub name: Seq<char>,
    pub media_type: Seq<char>,
    pub size_bytes: u64,
    pub sha256: Seq<u8>,
}

impl View for PrintDocumentMetadata {
    type V = PrintDocumentMetadataView;

    open spec fn view(&self) -> PrintDocumentMetadataView {
        PrintDocumentMetadataView {
            name: self.name@,
            media_type: self.media_type@,
            size_bytes: self.size_bytes,
            sha256: self.sha256@,
        }
    }
}

/// How a document is to be printed; `None` stands for a mode that the
/// protocol does not define.
#[derive(Debug, PartialEq, Eq)]
pub struct PrintJobOptions {
    pub copies: u32,
    pub color_mode: Option<ColorMode>,
    pub duplex_mode: Option<DuplexMode>,
    pub orientation: Option<Orientation>,
    pub media_name: String,
    pub page_ranges: Vec<PageRange>,
    pub collate: bool,
}

pub struct PrintJobOptionsView {
    pub copies: u32,
    pub color_mode: Option<ColorMode>,
    pub duplex_mode: Option<DuplexMode>,
    pub orientation: Option<Orientation>,
    pub media_name: Seq<char>,
    pub page_ranges: Seq<PageRange>,
    pub collate: bool,
}

impl View for PrintJobOptions {
    type V = PrintJobOptionsView;

    open spec fn view(&self) -> PrintJobOptionsView {
        PrintJobOptionsView {
            copies: self.copies,
            color_mode: self.color_mode,
            duplex_mode: self.duplex_mode,
            orientation: self.orientation,
            media_name: self.media_name@,
            page_ranges: self.page_ranges@,
            collate: self.collate,
        }
    }
}

/// A device offers a job.
#[derive(Debug, PartialEq, Eq)]
pub struct PrintCreateJobRequest {
    pub client_job_id: String,
    pub printer_share_id: String,
    pub document: Option<PrintDocumentMetadata>,
    pub options: Option<PrintJobOptions>,
}

pub struct PrintCreateJobRequestView {
    pub client_job_id: Seq<char>,
    pub printer_share_id: Seq<char>,
    pub document: Option<PrintDocumentMetadataView>,
    pub options: Option<PrintJobOptionsView>,
}

impl View for PrintCreateJobRequest {
    type V = PrintCreateJobRequestView;

    open spec fn view(&self) -> PrintCreateJobRequestView {
        PrintCreateJobRequestView {
            client_job_id: self.client_job_id@,
            printer_share_id: self.printer_share_id@,
            document: opt(self.document),
            options: opt(self.options),
        }
    }
}

/// What a printer offers; `None` stands for a mode that the protocol does
/// not define.
#[derive(Debug, PartialEq, Eq)]
pub struct PrintPrinterCapabilities {
    pub media_sizes: Vec<MediaSize>,
    pub color_modes: Vec<Option<ColorMode>>,
    pub duplex_modes: Vec<Option<DuplexMode>>,
    pub resolutions: Vec<PrintResolution>,
    pub max_copies: u32,
    pub supports_page_ranges: bool,
    pub supports_collation: bool,
    pub accepted_document_types: Vec<String>,
}

pub struct PrintPrinterCapabilitiesView {
    pub media_sizes: Seq<MediaSizeView>,
    pub color_modes: Seq<Option<ColorMode>>,
    pub duplex_modes: Seq<Option<DuplexMode>>,
    pub resolutions: Seq<PrintResolution>,
    pub max_copies: u32,
    pub supports_page_ranges: bool,
    pub supports_collation: bool,
    pub accepted_document_types: Seq<Seq<char>>,
}

impl View for PrintPrinterCapabilities {
    type V = PrintPrinterCapabilitiesView;

    open spec fn view(&self) -> PrintPrinterCapabilitiesView {
        PrintPrinterCapabilitiesView {
            media_sizes: views(self.media_sizes@),
            color_modes: self.color_modes@,
            duplex_modes: self.duplex_modes@,
            resolutions: self.resolutions@,
            max_copies: self.max_copies,
            supports_page_ranges: self.supports_page_ranges,
            supports_collation: self.supports_collation,
            accepted_document_types: views(self.accepted_document_types@),
        }
    }
}

/// A printer that a device publishes.
#[derive(Debug, PartialEq, Eq)]
pub struct PrintPublishedPrinter {
    pub share_id: String,
    pub display_name: String,
    pub state: PrinterStatus,
    pub capabilities: Option<PrintPrinterCapabilities>,
    pub capability_revision: u64,
}

pub struct PrintPublishedPrinterView {
    pub share_id: Seq<char>,
    pub display_name: Seq<char>,
    pub state: PrinterStatus,
    pub capabilities: Option<PrintPrinterCapabilitiesView>,
    pub capability_revision: u64,
}

impl View for PrintPublishedPrinter {
    type V = PrintPublishedPrinterView;

    open spec fn view(&self) -> PrintPublishedPrinterView {
        PrintPublishedPrinterView {
            share_id: self.share_id@,
            display_name: self.display_name@,
            state: self.state,
            capabilities: opt(self.capabilities),
            capability_revision: self.capability_revision,
        }
    }
}

/// The printers that a device publishes.
#[derive(Debug, PartialEq, Eq)]
pub struct PrintPrinterList {
    pub status: Option<Status>,
    pub source_device_id: String,
    pub source_device_name: String,
    pub printers: Vec<PrintPublishedPrinter>,
}

pub struct PrintPrinterListView {
    pub status: Option<StatusView>,
    pub source_device_id: Seq<char>,
    pub source_device_name: Seq<char>,
    pub printers: Seq<PrintPublishedPrinterView>,
}

impl View for PrintPrinterList {
    type V = PrintPrinterListView;

    open spec fn view(&self) -> PrintPrinterListView {
        PrintPrinterListView {
            status: opt(self.status),
            source_device_id: self.source_device_id@,
            source_device_name: self.source_device_name@,
            printers: views(self.printers@),
        }
    }
}

/// How a job fares.
#[derive(Debug, PartialEq, Eq)]
pub struct PrintJobInfo {
    pub job_id: String,
    pub client_job_id: String,
    pub printer_share_id: String,
    pub state: WireJobState,
    pub failure_message: Option<String>,
    pub created_at_ms: i64,
    pub updated_at_ms: i64,
}

pub struct PrintJobInfoView {
    pub job_id: Seq<char>,
    pub client_job_id: Seq<char>,
    pub printer_share_id: Seq<char>,
    pub state: WireJobState,
    pub failure_message: Option<Seq<char>>,
    pub created_at_ms: i64,
    pub updated_at_ms: i64,
}

impl View for PrintJobInfo {
    type V = PrintJobInfoView;

    open spec fn view(&self) -> PrintJobInfoView {
        PrintJobInfoView {
            job_id: self.job_id@,
            client_job_id: self.client_job_id@,
            printer_share_id: self.printer_share_id@,
            state: self.state,
            failure_message: opt(self.failure_message),
            created_at_ms: self.created_at_ms,
            updated_at_ms: self.updated_at_ms,
        }
    }
}

/// The answer to a request about a job.
#[derive(Debug, PartialEq, Eq)]
pub struct PrintJobResult {
    pub status: Option<Status>,
    pub job: Option<PrintJobInfo>,
    pub upload_ticket: Vec<u8>,
    pub upload_ticket_expires_at_ms: i64,
}

pub struct PrintJobResultView {
    pub status: Option<StatusView>,
    pub job: Option<PrintJobInfoView>,
    pub upload_ticket: Seq<u8>,
    pub upload_ticket_expires_at_ms: i64,
}

impl View for PrintJobResult {
    type V = PrintJobResultView;

    open spec fn view(&self) -> PrintJobResultView {
        PrintJobResultView {
            status: opt(self.status),
            job: opt(self.job),
            upload_ticket: self.upload_ticket@,
            upload_ticket_expires_at_ms: self.upload_ticket_expires_at_ms,
        }
    }
}

/// The start of the upload of a document.
#[derive(Debug, PartialEq, Eq)]
pub struct PrintDocumentOpen {
    pub job_id: String,
    pub size_bytes: u64,
    pub sha256: Vec<u8>,
    pub upload_ticket: Vec<u8>,
}

pub struct PrintDocumentOpenView {
    pub job_id: Seq<char>,
    pub size_bytes: u64,
    pub sha256: Seq<u8>,
    pub upload_ticket: Seq<u8>,
}

impl View for PrintDocumentOpen {
    type V = PrintDocumentOpenView;

    open spec fn view(&self) -> PrintDocumentOpenView {
        PrintDocumentOpenView {
            job_id: self.job_id@,
            size_bytes: self.size_bytes,
            sha256: self.sha256@,
            upload_ticket: self.upload_ticket@,
        }
    }
}

/// A piece of a document.
#[derive(Debug, PartialEq, Eq)]
pub struct PrintDocumentChunk {
    pub offset: u64,
    pub data: Vec<u8>,
}

pub struct PrintDocumentChunkView {
    pub offset: u64,
    pub data: Seq<u8>,
}

impl View for PrintDocumentChunk {
    type V = PrintDocumentChunkView;

    open spec fn view(&self) -> PrintDocumentChunkView {
        PrintDocumentChunkView {
            offset: self.offset,
            data: self.data@,
        }
    }
}

/// The answer to the upload of a document.
#[derive(Debug, PartialEq, Eq)]
pub struct PrintDocumentUploadResult {
    pub status: Option<Status>,
    pub job_id: String,
    pub received_bytes: u64,
    pub sha256: Vec<u8>,
}

pub struct PrintDocumentUploadResultView {
    pub status: Option<StatusView>,
    pub job_id: Seq<char>,
    pub received_bytes: u64,
    pub sha256: Seq<u8>,
}

impl View for PrintDocumentUploadResult {
    type V = PrintDocumentUploadResultView;

    open spec fn view(&self) -> PrintDocumentUploadResultView {
        PrintDocumentUploadResultView {
            status: opt(self.status),
            job_id: self.job_id@,
            received_bytes: self.received_bytes,
            sha256: self.sha256@,
        }
    }
}

/// What a client asks for.
#[derive(Debug, PartialEq, Eq)]
pub enum ClientBody {
    ListPrinters,
    CreateJob(PrintCreateJobRequest),
    GetJob(String),
    CancelJob(String),
    /// A request that the protocol does not define, or none.
    Other,
}

pub enum ClientBodyView {
    ListPrinters,
    CreateJob(PrintCreateJobRequestView),
    GetJob(Seq<char>),
    CancelJob(Seq<char>),
    Other,
}

impl View for ClientBody {
    type V = ClientBodyView;

    open spec fn view(&self) -> ClientBodyView {
        match *self {
            ClientBody::ListPrinters => ClientBodyView::ListPrinters,
            ClientBody::CreateJob(request) => ClientBodyView::CreateJob(request@),
            ClientBody::GetJob(id) => ClientBodyView::GetJob(id@),
            ClientBody::CancelJob(id) => ClientBodyView::CancelJob(id@),
            ClientBody::Other => ClientBodyView::Other,
        }
    }
}

/// A request.
#[derive(Debug, PartialEq, Eq)]
pub struct PrintClientFrame {
    pub request_id: u64,
    pub timeout_ms: u32,
    pub body: ClientBody,
}

pub struct PrintClientFrameView {
    pub request_id: u64,
    pub timeout_ms: u32,
    pub body: ClientBodyView,
}

impl View for PrintClientFrame {
    type V = PrintClientFrameView;

    open spec fn view(&self) -> PrintClientFrameView {
        PrintClientFrameView {
            request_id: self.request_id,
            timeout_ms: self.timeout_ms,
            body: self.body@,
        }
    }
}

/// What a server answers.
#[derive(Debug, PartialEq, Eq)]
pub enum ServerBody {
    Status(Status),
    PrinterList(PrintPrinterList),
    JobResult(PrintJobResult),
    /// An answer that the protocol does not define, or none.
    Other,
}

pub enum ServerBodyView {
    Status(StatusView),
    PrinterList(PrintPrinterListView),
    JobResult(PrintJobResultView),
    Other,
}

impl View for ServerBody {
    type V = ServerBodyView;

    open spec fn view(&self) -> ServerBodyView {
        match *self {
            ServerBody::Status(status) => ServerBodyView::Status(status@),
            ServerBody::PrinterList(list) => ServerBodyView::PrinterList(list@),
            ServerBody::JobResult(result) => ServerBodyView::JobResult(result@),
            ServerBody::Other => ServerBodyView::Other,
        }
    }
}

/// An answer, with the number of the request that it belongs to.
#[derive(Debug, PartialEq, Eq)]
pub struct PrintServerFrame {
    pub request_id: u64,
    pub body: ServerBody,
}

pub struct PrintServerFrameView {
    pub request_id: u64,
    pub body: ServerBodyView,
}

impl View for PrintServerFrame {
    type V = PrintServerFrameView;

    open spec fn view(&self) -> PrintServerFrameView {
        PrintServerFrameView { request_id: self.request_id, body: self.body@ }
    }
}

} // verus!
