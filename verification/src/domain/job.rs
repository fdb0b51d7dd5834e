//! Print jobs and their life cycle.
use vstd::prelude::*;
use vstd::string::*;
use vstd::utf8::*;

use crate::domain::capability::{copied, ColorMode, DuplexMode, Orientation};
use crate::domain::id::{ClientJobId, DeviceId, NativeJobId, PrintJobId, PrinterShareId};
use crate::domain::TimestampMs;
use crate::error::{outcome, updates, PrintError, PrintErrorView, PrintResult};
use crate::model::opt;
use crate::text::{blank, is_blank, same, same_bytes, utf8_len};
use crate::unique::is_random_text;

verus! {

/// The largest document that is taken, in bytes.
pub const MAX_DOCUMENT_BYTES: u64 = 500 * 1024 * 1024;

/// The largest number of copies of one job.
pub const MAX_COPIES: u32 = 100;

/// A document to print, without its contents.
#[derive(Debug, PartialEq, Eq)]
pub struct PrintDocument {
    pub name: String,
    pub media_type: String,
    pub size_bytes: u64,
    pub sha256: [u8; 32],
}

pub struct PrintDocumentView {
    pub name: Seq<char>,
    pub media_type: Seq<char>,
    pub size_bytes: u64,
    pub sha256: Seq<u8>,
}

impl View for PrintDocument {
    type V = PrintDocumentView;

    open spec fn view(&self) -> PrintDocumentView {
        PrintDocumentView {
            name: self.name@,
            media_type: self.media_type@,
            size_bytes: self.size_bytes,
            sha256: self.sha256@,
        }
    }
}

impl Clone for PrintDocument {
    fn clone(&self) -> (r: Self)
        ensures
            r@ == self@,
    {
        PrintDocument {
            name: self.name.clone(),
            media_type: self.media_type.clone(),
            size_bytes: self.size_bytes,
            sha256: self.sha256,
        }
    }
}

impl PrintDocumentView {
    /// What [`PrintDocument::validate`] finds.
    pub open spec fn validation(self) -> core::result::Result<(), PrintErrorView> {
        if is_blank(self.name) || encode_utf8(self.name).len() > 512 {
            Err(PrintErrorView::Invalid("invalid document name"@))
        } else if self.media_type != "application/pdf"@ && self.media_type != "image/pwg-raster"@ {
            Err(PrintErrorView::Invalid("unsupported print document type: "@ + self.media_type))
        } else if self.size_bytes == 0 || self.size_bytes > MAX_DOCUMENT_BYTES {
            Err(PrintErrorView::Invalid("invalid print document size"@))
        } else {
            Ok(())
        }
    }
}

impl PrintDocument {
    /// Checks the name, the kind and the size of the document.
    pub fn validate(&self) -> (r: PrintResult<()>)
        ensures
            outcome(r) == self@.validation(),
    {
        if blank(self.name.as_str()) || utf8_len(self.name.as_str()) > 512 {
            return Err(PrintError::Invalid("invalid document name".to_string()));
        }
        if !same(self.media_type.as_str(), "application/pdf") && !same(
            self.media_type.as_str(),
            "image/pwg-raster",
        ) {
            let mut message = "unsupported print document type: ".to_string();
            message.append(self.media_type.as_str());
            return Err(PrintError::Invalid(message));
        }
        if self.size_bytes == 0 || self.size_bytes > MAX_DOCUMENT_BYTES {
            return Err(PrintError::Invalid("invalid print document size".to_string()));
        }
        Ok(())
    }

    /// Whether both describe the same document.
    pub fn same(&self, other: &Self) -> (r: bool)
        ensures
            r == (self@ == other@),
    {
        same(self.name.as_str(), other.name.as_str()) && same(
            self.media_type.as_str(),
            other.media_type.as_str(),
        ) && self.size_bytes == other.size_bytes && same_bytes(&self.sha256, &other.sha256)
    }
}

/// Pages `first` to `last`, counted from one.
#[derive(Debug, Clone, Copy, PartialEq, Eq, Structural)]
pub struct PageRange {
    pub first: u32,
    pub last: u32,
}

/// How a document is to be printed.
#[derive(Debug, PartialEq, Eq)]
pub struct PrintOptions {
    pub copies: u32,
    pub color_mode: ColorMode,
    pub duplex_mode: DuplexMode,
    pub orientation: Orientation,
    pub media_name: String,
    pub page_ranges: Vec<PageRange>,
    pub collate: bool,
}

pub struct PrintOptionsView {
    pub copies: u32,
    pub color_mode: ColorMode,
    pub duplex_mode: DuplexMode,
    pub orientation: Orientation,
    pub media_name: Seq<char>,
    pub page_ranges: Seq<PageRange>,
    pub collate: bool,
}

impl View for PrintOptions {
    type V = PrintOptionsView;

    open spec fn view(&self) -> PrintOptionsView {
        PrintOptionsView {
            copies: self.copies,
            color_mode: self.color_mode,
            duplex_mode: self.duplex_mode,
            orientation: self.orientation,
            media_name: self.media_name@,
            page_ranges: self.page_ranges@,
            collate: self.collate,
        }
    }
}

impl Clone for PrintOptions {
    fn clone(&self) -> (r: Self)
        ensures
            r@ == self@,
    {
        PrintOptions {
            copies: self.copies,
            color_mode: self.color_mode,
            duplex_mode: self.duplex_mode,
            orientation: self.orientation,
            media_name: self.media_name.clone(),
            page_ranges: copied(&self.page_ranges),
            collate: self.collate,
        }
    }
}

/// A range that begins with page one or later and is not empty.
pub open spec fn valid_range(range: PageRange) -> bool {
    0 < range.first <= range.last
}

/// Ranges that are all valid.
pub open spec fn valid_ranges(ranges: Seq<PageRange>) -> bool {
    forall|i: int| 0 <= i < ranges.len() ==> valid_range(#[trigger] ranges[i])
}

impl PrintOptionsView {
    /// What [`PrintOptions::validate`] finds.
    pub open spec fn validation(self) -> core::result::Result<(), PrintErrorView> {
        if self.copies == 0 || self.copies > MAX_COPIES {
            Err(PrintErrorView::Invalid("invalid number of copies"@))
        } else if is_blank(self.media_name) {
            Err(PrintErrorView::Invalid("print media name is empty"@))
        } else if !valid_ranges(self.page_ranges) {
            Err(PrintErrorView::Invalid("invalid page range"@))
        } else {
            Ok(())
        }
    }
}

fn ranges_valid(ranges: &Vec<PageRange>) -> (r: bool)
    ensures
        r == valid_ranges(ranges@),
{
    let mut i: usize = 0;
    while i < ranges.len()
        invariant
            i <= ranges@.len(),
            forall|j: int| 0 <= j < i ==> valid_range(#[trigger] ranges@[j]),
        decreases ranges@.len() - i,
    {
        let range = ranges[i];
        if range.first == 0 || range.first > range.last {
            assert(!valid_range(ranges@[i as int]));
            return false;
        }
        i += 1;
    }
    true
}

fn same_ranges(a: &Vec<PageRange>, b: &Vec<PageRange>) -> (r: bool)
    ensures
        r == (a@ == b@),
{
    if a.len() != b.len() {
        return false;
    }
    let mut i: usize = 0;
    while i < a.len()
        invariant
            a@.len() == b@.len(),
            i <= a@.len(),
            forall|j: int| 0 <= j < i ==> a@[j] == b@[j],
        decreases a@.len() - i,
    {
        if a[i] != b[i] {
            return false;
        }
        i += 1;
    }
    assert(a@ =~= b@);
    true
}

impl PrintOptions {
    /// Checks the number of copies, the media name and the page ranges.
    pub fn validate(&self) -> (r: PrintResult<()>)
        ensures
            outcome(r) == self@.validation(),
    {
        if self.copies == 0 || self.copies > MAX_COPIES {
            return Err(PrintError::Invalid("invalid number of copies".to_string()));
        }
        if blank(self.media_name.as_str()) {
            return Err(PrintError::Invalid("print media name is empty".to_string()));
        }
        if !ranges_valid(&self.page_ranges) {
            return Err(PrintError::Invalid("invalid page range".to_string()));
        }
        Ok(())
    }

    /// Whether both ask for the same.
    pub fn same(&self, other: &Self) -> (r: bool)
        ensures
            r == (self@ == other@),
    {
        self.copies == other.copies && self.color_mode == other.color_mode && self.duplex_mode
            == other.duplex_mode && self.orientation == other.orientation && same(
            self.media_name.as_str(),
            other.media_name.as_str(),
        ) && same_ranges(&self.page_ranges, &other.page_ranges) && self.collate == other.collate
    }
}

/// How far a job has come.
#[derive(Debug, Clone, Copy, PartialEq, Eq, Structural)]
pub enum PrintJobState {
    Offered,
    Receiving,
    Validating,
    Ready,
    Submitting,
    Queued,
    Printing,
    Completed,
    Held,
    Cancelled,
    Failed,
    Ambiguous,
}

impl PrintJobState {
    /// States that a job never leaves.
    pub open spec fn is_terminal(self) -> bool {
        self == PrintJobState::Completed || self == PrintJobState::Cancelled || self
            == PrintJobState::Failed
    }

    /// States before the spooler of the operating system knows of the job.
    pub open spec fn before_submission(self) -> bool {
        self == PrintJobState::Offered || self == PrintJobState::Receiving || self
            == PrintJobState::Validating || self == PrintJobState::Ready
    }

    /// The next step of the job's preparation, if there is one.
    pub open spec fn prepared(self) -> Option<PrintJobState> {
        match self {
            PrintJobState::Offered => Some(PrintJobState::Receiving),
            PrintJobState::Receiving => Some(PrintJobState::Validating),
            PrintJobState::Validating => Some(PrintJobState::Ready),
            PrintJobState::Ready => Some(PrintJobState::Submitting),
            _ => None,
        }
    }

    /// Whether a job may move from this state to another, `next`.
    ///
    /// A job is prepared step by step, is submitted once, and is then moved
    /// by what the spooler reports; until it ends it may be cancelled or fail.
    pub open spec fn may_become(self, next: PrintJobState) -> bool {
        ||| self.prepared() == Some(next)
        ||| !self.is_terminal() && (next == PrintJobState::Cancelled || next
            == PrintJobState::Failed)
        ||| match self {
            PrintJobState::Submitting => next == PrintJobState::Queued || next
                == PrintJobState::Ambiguous,
            PrintJobState::Queued => next == PrintJobState::Ambiguous || next
                == PrintJobState::Printing || next == PrintJobState::Completed || next
                == PrintJobState::Held,
            PrintJobState::Printing => next == PrintJobState::Completed || next
                == PrintJobState::Held,
            PrintJobState::Held => next == PrintJobState::Queued || next == PrintJobState::Printing
                || next == PrintJobState::Completed,
            PrintJobState::Ambiguous => next == PrintJobState::Queued || next
                == PrintJobState::Printing || next == PrintJobState::Completed || next
                == PrintJobState::Held,
            _ => false,
        }
    }

    /// How far a job in this state has come.
    pub open spec fn rank(self) -> int {
        match self {
            PrintJobState::Offered => 0,
            PrintJobState::Receiving => 1,
            PrintJobState::Validating => 2,
            PrintJobState::Ready => 3,
            PrintJobState::Submitting => 4,
            PrintJobState::Queued
            | PrintJobState::Printing
            | PrintJobState::Held
            | PrintJobState::Ambiguous => 5,
            PrintJobState::Completed | PrintJobState::Cancelled | PrintJobState::Failed => 6,
        }
    }

    /// The name of the state in messages.
    pub open spec fn label(self) -> Seq<char> {
        match self {
            PrintJobState::Offered => "Offered"@,
            PrintJobState::Receiving => "Receiving"@,
            PrintJobState::Validating => "Validating"@,
            PrintJobState::Ready => "Ready"@,
            PrintJobState::Submitting => "Submitting"@,
            PrintJobState::Queued => "Queued"@,
            PrintJobState::Printing => "Printing"@,
            PrintJobState::Completed => "Completed"@,
            PrintJobState::Held => "Held"@,
            PrintJobState::Cancelled => "Cancelled"@,
            PrintJobState::Failed => "Failed"@,
            PrintJobState::Ambiguous => "Ambiguous"@,
        }
    }

    /// Whether a job never leaves this state.
    pub fn terminal(self) -> (r: bool)
        ensures
            r == self.is_terminal(),
    {
        match self {
            PrintJobState::Completed | PrintJobState::Cancelled | PrintJobState::Failed => true,
            _ => false,
        }
    }

    /// The name of the state in messages.
    pub fn name(self) -> (r: &'static str)
        ensures
            r@ == self.label(),
    {
        match self {
            PrintJobState::Offered => "Offered",
            PrintJobState::Receiving => "Receiving",
            PrintJobState::Validating => "Validating",
            PrintJobState::Ready => "Ready",
            PrintJobState::Submitting => "Submitting",
            PrintJobState::Queued => "Queued",
            PrintJobState::Printing => "Printing",
            PrintJobState::Completed => "Completed",
            PrintJobState::Held => "Held",
            PrintJobState::Cancelled => "Cancelled",
            PrintJobState::Failed => "Failed",
            PrintJobState::Ambiguous => "Ambiguous",
        }
    }

    fn allows(self, next: PrintJobState) -> (r: bool)
        ensures
            r == self.may_become(next),
    {
        match (self, next) {
            (PrintJobState::Offered, PrintJobState::Receiving)
            | (PrintJobState::Offered, PrintJobState::Cancelled)
            | (PrintJobState::Offered, PrintJobState::Failed)
            | (PrintJobState::Receiving, PrintJobState::Validating)
            | (PrintJobState::Receiving, PrintJobState::Cancelled)
            | (PrintJobState::Receiving, PrintJobState::Failed)
            | (PrintJobState::Validating, PrintJobState::Ready)
            | (PrintJobState::Validating, PrintJobState::Cancelled)
            | (PrintJobState::Validating, PrintJobState::Failed)
            | (PrintJobState::Ready, PrintJobState::Submitting)
            | (PrintJobState::Ready, PrintJobState::Cancelled)
            | (PrintJobState::Ready, PrintJobState::Failed)
            | (PrintJobState::Submitting, PrintJobState::Queued)
            | (PrintJobState::Submitting, PrintJobState::Ambiguous)
            | (PrintJobState::Submitting, PrintJobState::Cancelled)
            | (PrintJobState::Submitting, PrintJobState::Failed)
            | (PrintJobState::Queued, PrintJobState::Ambiguous)
            | (PrintJobState::Queued, PrintJobState::Printing)
            | (PrintJobState::Queued, PrintJobState::Completed)
            | (PrintJobState::Queued, PrintJobState::Held)
            | (PrintJobState::Queued, PrintJobState::Cancelled)
            | (PrintJobState::Queued, PrintJobState::Failed)
            | (PrintJobState::Printing, PrintJobState::Completed)
            | (PrintJobState::Printing, PrintJobState::Held)
            | (PrintJobState::Printing, PrintJobState::Cancelled)
            | (PrintJobState::Printing, PrintJobState::Failed)
            | (PrintJobState::Held, PrintJobState::Queued)
            | (PrintJobState::Held, PrintJobState::Printing)
            | (PrintJobState::Held, PrintJobState::Completed)
            | (PrintJobState::Held, PrintJobState::Cancelled)
            | (PrintJobState::Held, PrintJobState::Failed)
            | (PrintJobState::Ambiguous, PrintJobState::Queued)
            | (PrintJobState::Ambiguous, PrintJobState::Printing)
            | (PrintJobState::Ambiguous, PrintJobState::Completed)
            | (PrintJobState::Ambiguous, PrintJobState::Held)
            | (PrintJobState::Ambiguous, PrintJobState::Cancelled)
            | (PrintJobState::Ambiguous, PrintJobState::Failed) => true,
            _ => false,
        }
    }
}

/// A job that prints one document on one published printer.
#[derive(Debug, PartialEq, Eq)]
pub struct PrintJob {
    pub id: PrintJobId,
    pub client_job_id: ClientJobId,
    pub source_device_id: DeviceId,
    pub printer_share_id: PrinterShareId,
    pub document: PrintDocument,
    pub options: PrintOptions,
    pub state: PrintJobState,
    pub native_job_id: Option<NativeJobId>,
    pub failure_message: Option<String>,
    pub created_at_ms: TimestampMs,
    pub updated_at_ms: TimestampMs,
}

pub struct PrintJobView {
    pub id: Seq<char>,
    pub client_job_id: Seq<char>,
    pub source_device_id: Seq<char>,
    pub printer_share_id: Seq<char>,
    pub document: PrintDocumentView,
    pub options: PrintOptionsView,
    pub state: PrintJobState,
    pub native_job_id: Option<Seq<char>>,
    pub failure_message: Option<Seq<char>>,
    pub created_at_ms: TimestampMs,
    pub updated_at_ms: TimestampMs,
}

impl View for PrintJob {
    type V = PrintJobView;

    open spec fn view(&self) -> PrintJobView {
        PrintJobView {
            id: self.id@,
            client_job_id: self.client_job_id@,
            source_device_id: self.source_device_id@,
            printer_share_id: self.printer_share_id@,
            document: self.document@,
            options: self.options@,
            state: self.state,
            native_job_id: opt(self.native_job_id),
            failure_message: opt(self.failure_message),
            created_at_ms: self.created_at_ms,
            updated_at_ms: self.updated_at_ms,
        }
    }
}

impl Clone for PrintJob {
    fn clone(&self) -> (r: Self)
        ensures
            r@ == self@,
    {
        PrintJob {
            id: self.id.clone(),
            client_job_id: self.client_job_id.clone(),
            source_device_id: self.source_device_id.clone(),
            printer_share_id: self.printer_share_id.clone(),
            document: self.document.clone(),
            options: self.options.clone(),
            state: self.state,
            native_job_id: match &self.native_job_id {
                Some(id) => Some(id.clone()),
                None => None,
            },
            failure_message: match &self.failure_message {
                Some(message) => Some(message.clone()),
                None => None,
            },
            created_at_ms: self.created_at_ms,
            updated_at_ms: self.updated_at_ms,
        }
    }
}

/// The job, called `id`, that an offer creates.
pub open spec fn offered_job(
    id: Seq<char>,
    client_job_id: Seq<char>,
    source_device_id: Seq<char>,
    printer_share_id: Seq<char>,
    document: PrintDocumentView,
    options: PrintOptionsView,
    now_ms: TimestampMs,
) -> PrintJobView {
    PrintJobView {
        id,
        client_job_id,
        source_device_id,
        printer_share_id,
        document,
        options,
        state: PrintJobState::Offered,
        native_job_id: None,
        failure_message: None,
        created_at_ms: now_ms,
        updated_at_ms: now_ms,
    }
}

/// Why a document cannot be printed with these options, if it cannot.
pub open spec fn offer_validation(
    document: PrintDocumentView,
    options: PrintOptionsView,
) -> core::result::Result<(), PrintErrorView> {
    match document.validation() {
        Err(error) => Err(error),
        Ok(_) => options.validation(),
    }
}

impl PrintJobView {
    /// The job moved to `next`; moving to its own state leaves it alone.
    pub open spec fn moved(self, next: PrintJobState, now_ms: TimestampMs) -> core::result::Result<
        Self,
        PrintErrorView,
    > {
        if self.state == next {
            Ok(self)
        } else if self.state.may_become(next) {
            Ok(PrintJobView { state: next, updated_at_ms: now_ms, ..self })
        } else {
            Err(
                PrintErrorView::InvalidState(
                    "cannot transition "@ + self.state.label() + " to "@ + next.label(),
                ),
            )
        }
    }

    /// The job moved to `next`, with this failure message.
    pub open spec fn moved_with(
        self,
        next: PrintJobState,
        failure_message: Option<Seq<char>>,
        now_ms: TimestampMs,
    ) -> core::result::Result<Self, PrintErrorView> {
        match self.moved(next, now_ms) {
            Ok(job) => Ok(PrintJobView { failure_message, ..job }),
            Err(error) => Err(error),
        }
    }

    /// The job after [`PrintJob::document_received`].
    pub open spec fn after_document(
        self,
        digest: Seq<u8>,
        now_ms: TimestampMs,
    ) -> core::result::Result<Self, PrintErrorView> {
        if self.state != PrintJobState::Receiving {
            Err(PrintErrorView::InvalidState("document is not being received"@))
        } else if digest != self.document.sha256 {
            Err(PrintErrorView::Invalid("document digest does not match"@))
        } else {
            Ok(PrintJobView { state: PrintJobState::Validating, updated_at_ms: now_ms, ..self })
        }
    }

    /// The job after [`PrintJob::queued`].
    pub open spec fn after_queued(
        self,
        native_job_id: Seq<char>,
        now_ms: TimestampMs,
    ) -> core::result::Result<Self, PrintErrorView> {
        match self.moved_with(PrintJobState::Queued, None, now_ms) {
            Ok(job) => Ok(PrintJobView { native_job_id: Some(native_job_id), ..job }),
            Err(error) => Err(error),
        }
    }

    /// The job after [`PrintJob::submission_ambiguous`].
    pub open spec fn after_ambiguous(
        self,
        native_job_id: Option<Seq<char>>,
        message: Seq<char>,
        now_ms: TimestampMs,
    ) -> core::result::Result<Self, PrintErrorView> {
        match self.moved_with(PrintJobState::Ambiguous, Some(message), now_ms) {
            Ok(job) => Ok(
                if native_job_id is Some {
                    PrintJobView { native_job_id, ..job }
                } else {
                    job
                },
            ),
            Err(error) => Err(error),
        }
    }

    /// The parts of a job that no step of its life changes.
    pub open spec fn same_identity(self, other: Self) -> bool {
        &&& self.id == other.id
        &&& self.client_job_id == other.client_job_id
        &&& self.source_device_id == other.source_device_id
        &&& self.printer_share_id == other.printer_share_id
        &&& self.document == other.document
        &&& self.options == other.options
        &&& self.created_at_ms == other.created_at_ms
    }
}

impl PrintJob {
    /// A new job for a valid document and valid options, under a fresh
    /// identifier.
    pub fn offer(
        client_job_id: ClientJobId,
        source_device_id: DeviceId,
        printer_share_id: PrinterShareId,
        document: PrintDocument,
        options: PrintOptions,
        now_ms: TimestampMs,
    ) -> (r: PrintResult<Self>)
        ensures
            match offer_validation(document@, options@) {
                Ok(_) => r matches Ok(job) && is_random_text(job@.id) && job@ == offered_job(
                    job@.id,
                    client_job_id@,
                    source_device_id@,
                    printer_share_id@,
                    document@,
                    options@,
                    now_ms,
                ),
                Err(error) => r matches Err(e) && e@ == error,
            },
    {
        match document.validate() {
            Ok(_) => {},
            Err(error) => {
                return Err(error);
            },
        }
        match options.validate() {
            Ok(_) => {},
            Err(error) => {
                return Err(error);
            },
        }
        Ok(
            PrintJob {
                id: PrintJobId::random(),
                client_job_id,
                source_device_id,
                printer_share_id,
                document,
                options,
                state: PrintJobState::Offered,
                native_job_id: None,
                failure_message: None,
                created_at_ms: now_ms,
                updated_at_ms: now_ms,
            },
        )
    }

    /// The document starts to arrive.
    pub fn begin_receiving(&mut self, now_ms: TimestampMs) -> (r: PrintResult<()>)
        ensures
            updates(old(self)@, final(self)@, r, old(self)@.moved(PrintJobState::Receiving, now_ms)),
    {
        self.transition(PrintJobState::Receiving, now_ms)
    }

    /// The document has arrived, and its contents have this digest.
    pub fn document_received(&mut self, digest: [u8; 32], now_ms: TimestampMs) -> (r: PrintResult<
        (),
    >)
        ensures
            updates(old(self)@, final(self)@, r, old(self)@.after_document(digest@, now_ms)),
    {
        if self.state != PrintJobState::Receiving {
            return Err(PrintError::InvalidState("document is not being received".to_string()));
        }
        if !same_bytes(&digest, &self.document.sha256) {
            return Err(PrintError::Invalid("document digest does not match".to_string()));
        }
        self.transition(PrintJobState::Validating, now_ms)
    }

    /// The document has been found in order.
    pub fn validated(&mut self, now_ms: TimestampMs) -> (r: PrintResult<()>)
        ensures
            updates(old(self)@, final(self)@, r, old(self)@.moved(PrintJobState::Ready, now_ms)),
    {
        self.transition(PrintJobState::Ready, now_ms)
    }

    /// The spooler has taken the job.
    pub fn queued(&mut self, native_job_id: NativeJobId, now_ms: TimestampMs) -> (r: PrintResult<
        (),
    >)
        ensures
            updates(old(self)@, final(self)@, r, old(self)@.after_queued(native_job_id@, now_ms)),
    {
        match self.transition(PrintJobState::Queued, now_ms) {
            Ok(_) => {},
            Err(error) => {
                return Err(error);
            },
        }
        self.native_job_id = Some(native_job_id);
        self.failure_message = None;
        Ok(())
    }

    /// The job is about to be handed to the spooler.
    pub fn begin_submitting(&mut self, now_ms: TimestampMs) -> (r: PrintResult<()>)
        ensures
            updates(
                old(self)@,
                final(self)@,
                r,
                old(self)@.moved(PrintJobState::Submitting, now_ms),
            ),
    {
        self.transition(PrintJobState::Submitting, now_ms)
    }

    /// It is not known whether the spooler has taken the job.
    pub fn submission_ambiguous(
        &mut self,
        native_job_id: Option<NativeJobId>,
        message: String,
        now_ms: TimestampMs,
    ) -> (r: PrintResult<()>)
        ensures
            updates(
                old(self)@,
                final(self)@,
                r,
                old(self)@.after_ambiguous(opt(native_job_id), message@, now_ms),
            ),
    {
        match self.transition(PrintJobState::Ambiguous, now_ms) {
            Ok(_) => {},
            Err(error) => {
                return Err(error);
            },
        }
        if native_job_id.is_some() {
            self.native_job_id = native_job_id;
        }
        self.failure_message = Some(message);
        Ok(())
    }

    /// The printer is at work on the job.
    pub fn printing(&mut self, now_ms: TimestampMs) -> (r: PrintResult<()>)
        ensures
            updates(
                old(self)@,
                final(self)@,
                r,
                old(self)@.moved_with(PrintJobState::Printing, None, now_ms),
            ),
    {
        match self.transition(PrintJobState::Printing, now_ms) {
            Ok(_) => {},
            Err(error) => {
                return Err(error);
            },
        }
        self.failure_message = None;
        Ok(())
    }

    /// The job has been printed.
    pub fn complete(&mut self, now_ms: TimestampMs) -> (r: PrintResult<()>)
        ensures
            updates(
                old(self)@,
                final(self)@,
                r,
                old(self)@.moved_with(PrintJobState::Completed, None, now_ms),
            ),
    {
        match self.transition(PrintJobState::Completed, now_ms) {
            Ok(_) => {},
            Err(error) => {
                return Err(error);
            },
        }
        self.failure_message = None;
        Ok(())
    }

    /// The spooler holds the job back.
    pub fn hold(&mut self, message: String, now_ms: TimestampMs) -> (r: PrintResult<()>)
        ensures
            updates(
                old(self)@,
                final(self)@,
                r,
                old(self)@.moved_with(PrintJobState::Held, Some(message@), now_ms),
            ),
    {
        match self.transition(PrintJobState::Held, now_ms) {
            Ok(_) => {},
            Err(error) => {
                return Err(error);
            },
        }
        self.failure_message = Some(message);
        Ok(())
    }

    /// The job is called off.
    pub fn cancel(&mut self, now_ms: TimestampMs) -> (r: PrintResult<()>)
        ensures
            updates(old(self)@, final(self)@, r, old(self)@.moved(PrintJobState::Cancelled, now_ms)),
    {
        self.transition(PrintJobState::Cancelled, now_ms)
    }

    /// The job has come to grief.
    pub fn fail(&mut self, message: String, now_ms: TimestampMs) -> (r: PrintResult<()>)
        ensures
            updates(
                old(self)@,
                final(self)@,
                r,
                old(self)@.moved_with(PrintJobState::Failed, Some(message@), now_ms),
            ),
    {
        match self.transition(PrintJobState::Failed, now_ms) {
            Ok(_) => {},
            Err(error) => {
                return Err(error);
            },
        }
        self.failure_message = Some(message);
        Ok(())
    }

    fn transition(&mut self, next: PrintJobState, now_ms: TimestampMs) -> (r: PrintResult<()>)
        ensures
            updates(old(self)@, final(self)@, r, old(self)@.moved(next, now_ms)),
    {
        if self.state == next {
            return Ok(());
        }
        if !self.state.allows(next) || self.state.terminal() {
            let mut message = "cannot transition ".to_string();
            message.append(self.state.name());
            message.append(" to ");
            message.append(next.name());
            return Err(PrintError::InvalidState(message));
        }
        self.state = next;
        self.updated_at_ms = now_ms;
        Ok(())
    }
}

/// A step in the life of a job: one call of one of its operations.
pub enum JobStep {
    BeginReceiving,
    DocumentReceived(Seq<u8>),
    Validated,
    BeginSubmitting,
    Queued(Seq<char>),
    SubmissionAmbiguous(Option<Seq<char>>, Seq<char>),
    Printing,
    Complete,
    Hold(Seq<char>),
    Cancel,
    Fail(Seq<char>),
}

/// The job after a step, as the operation of that name leaves it.
pub open spec fn stepped(job: PrintJobView, step: JobStep, now_ms: TimestampMs) -> PrintJobView {
    let result = match step {
        JobStep::BeginReceiving => job.moved(PrintJobState::Receiving, now_ms),
        JobStep::DocumentReceived(digest) => job.after_document(digest, now_ms),
        JobStep::Validated => job.moved(PrintJobState::Ready, now_ms),
        JobStep::BeginSubmitting => job.moved(PrintJobState::Submitting, now_ms),
        JobStep::Queued(id) => job.after_queued(id, now_ms),
        JobStep::SubmissionAmbiguous(id, m) => job.after_ambiguous(id, m, now_ms),
        JobStep::Printing => job.moved_with(PrintJobState::Printing, None, now_ms),
        JobStep::Complete => job.moved_with(PrintJobState::Completed, None, now_ms),
        JobStep::Hold(m) => job.moved_with(PrintJobState::Held, Some(m), now_ms),
        JobStep::Cancel => job.moved(PrintJobState::Cancelled, now_ms),
        JobStep::Fail(m) => job.moved_with(PrintJobState::Failed, Some(m), now_ms),
    };
    match result {
        Ok(after) => after,
        Err(_) => job,
    }
}

/// The states that a job goes through under a sequence of steps, the first
/// state included.
pub open spec fn history(job: PrintJobView, steps: Seq<(JobStep, TimestampMs)>) -> Seq<
    PrintJobState,
>
    decreases steps.len(),
{
    if steps.len() == 0 {
        seq![job.state]
    } else {
        seq![job.state] + history(stepped(job, steps[0].0, steps[0].1), steps.drop_first())
    }
}

/// The job after a sequence of steps.
pub open spec fn stepped_all(job: PrintJobView, steps: Seq<(JobStep, TimestampMs)>) -> PrintJobView
    decreases steps.len(),
{
    if steps.len() == 0 {
        job
    } else {
        stepped_all(stepped(job, steps[0].0, steps[0].1), steps.drop_first())
    }
}

/// No step changes what a job is about, and each leaves the state or moves it
/// along the life cycle.
pub proof fn law_step_keeps_identity(job: PrintJobView, step: JobStep, now_ms: TimestampMs)
    ensures
        stepped(job, step, now_ms).same_identity(job),
        stepped(job, step, now_ms).state == job.state || job.state.may_become(
            stepped(job, step, now_ms).state,
        ),
{
}

/// Whatever happens to a job, it never goes back, and what it is about never
/// changes.
pub proof fn law_jobs_never_go_back(job: PrintJobView, steps: Seq<(JobStep, TimestampMs)>)
    ensures
        stepped_all(job, steps).same_identity(job),
        job.state.rank() <= stepped_all(job, steps).state.rank(),
        forall|i: int, j: int|
            0 <= i <= j < history(job, steps).len() ==> (#[trigger] history(job, steps)[i]).rank()
                <= (#[trigger] history(job, steps)[j]).rank(),
        history(job, steps)[0] == job.state,
        history(job, steps).last() == stepped_all(job, steps).state,
    decreases steps.len(),
{
    if steps.len() > 0 {
        let next = stepped(job, steps[0].0, steps[0].1);
        let rest = history(next, steps.drop_first());
        law_step_keeps_identity(job, steps[0].0, steps[0].1);
        law_jobs_never_go_back(next, steps.drop_first());
        lemma_history_head(next, steps.drop_first());
        assert(history(job, steps).last() == rest.last());
        assert forall|i: int, j: int| 0 <= i <= j < history(job, steps).len() implies (
        #[trigger] history(job, steps)[i]).rank() <= (#[trigger] history(
            job,
            steps,
        )[j]).rank() by {
            if j > 0 {
                assert(history(job, steps)[j] == rest[j - 1]);
                assert(rest[0].rank() <= rest[j - 1].rank());
                if i > 0 {
                    assert(history(job, steps)[i] == rest[i - 1]);
                }
            }
        }
    }
}

/// A job in a terminal state stays in it, whatever happens.
pub proof fn law_terminal_is_final(job: PrintJobView, steps: Seq<(JobStep, TimestampMs)>)
    requires
        job.state.is_terminal(),
    ensures
        stepped_all(job, steps).state == job.state,
    decreases steps.len(),
{
    if steps.len() > 0 {
        law_step_keeps_identity(job, steps[0].0, steps[0].1);
        law_terminal_is_final(stepped(job, steps[0].0, steps[0].1), steps.drop_first());
    }
}

/// Once a job has been submitted it is never prepared or submitted again.
pub proof fn law_never_submitted_twice(job: PrintJobView, steps: Seq<(JobStep, TimestampMs)>)
    requires
        !job.state.before_submission(),
        job.state != PrintJobState::Submitting,
    ensures
        forall|i: int|
            0 <= i < history(job, steps).len() ==> {
                &&& !(#[trigger] history(job, steps)[i]).before_submission()
                &&& history(job, steps)[i] != PrintJobState::Submitting
            },
    decreases steps.len(),
{
    if steps.len() > 0 {
        let next = stepped(job, steps[0].0, steps[0].1);
        law_step_keeps_identity(job, steps[0].0, steps[0].1);
        law_never_submitted_twice(next, steps.drop_first());
        let rest = history(next, steps.drop_first());
        assert forall|i: int| 0 <= i < history(job, steps).len() implies {
            &&& !(#[trigger] history(job, steps)[i]).before_submission()
            &&& history(job, steps)[i] != PrintJobState::Submitting
        } by {
            if i > 0 {
                assert(history(job, steps)[i] == rest[i - 1]);
            }
        }
    }
}

/// Along any life of a job the submissions stand side by side: between two of
/// them the job has not left that state, so it was submitted at most once.
pub proof fn law_one_submission(
    job: PrintJobView,
    steps: Seq<(JobStep, TimestampMs)>,
    i: int,
    j: int,
    k: int,
)
    requires
        0 <= i <= j <= k < history(job, steps).len(),
        history(job, steps)[i] == PrintJobState::Submitting,
        history(job, steps)[k] == PrintJobState::Submitting,
    ensures
        history(job, steps)[j] == PrintJobState::Submitting,
    decreases steps.len(),
{
    if steps.len() > 0 {
        let next = stepped(job, steps[0].0, steps[0].1);
        let rest = history(next, steps.drop_first());
        law_step_keeps_identity(job, steps[0].0, steps[0].1);
        if i > 0 {
            law_one_submission(next, steps.drop_first(), i - 1, j - 1, k - 1);
        } else if j > 0 {
            assert(rest[j - 1] == history(job, steps)[j]);
            assert(rest[k - 1] == history(job, steps)[k]);
            lemma_history_head(next, steps.drop_first());
            if next.state == PrintJobState::Submitting {
                law_one_submission(next, steps.drop_first(), 0, j - 1, k - 1);
            } else {
                law_never_submitted_twice(next, steps.drop_first());
            }
        }
    }
}

proof fn lemma_history_head(job: PrintJobView, steps: Seq<(JobStep, TimestampMs)>)
    ensures
        history(job, steps).len() > 0,
        history(job, steps)[0] == job.state,
{
}

/// A job can be submitted only from the ready state, and can be ready only
/// after its document was found to have the announced digest.
pub proof fn law_preparation_in_order(job: PrintJobView, step: JobStep, now_ms: TimestampMs)
    ensures
        ({
            let after = stepped(job, step, now_ms);
            &&& after.state == PrintJobState::Submitting && job.state != after.state ==> job.state
                == PrintJobState::Ready
            &&& after.state == PrintJobState::Ready && job.state != after.state ==> job.state
                == PrintJobState::Validating
            &&& after.state == PrintJobState::Validating && job.state != after.state ==> job.state
                == PrintJobState::Receiving && step == JobStep::DocumentReceived(
                job.document.sha256,
            )
        }),
{
}

/// A job whose submission is in doubt can be neither prepared nor submitted.
pub proof fn law_ambiguous_is_not_resubmitted(job: PrintJobView, now_ms: TimestampMs)
    requires
        job.state == PrintJobState::Ambiguous,
    ensures
        job.moved(PrintJobState::Ready, now_ms) is Err,
        job.moved(PrintJobState::Submitting, now_ms) is Err,
{
}

} // verus!
