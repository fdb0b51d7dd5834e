//! Answering the requests of other devices.
use vstd::prelude::*;
use vstd::string::*;

use crate::domain::id::{parsed_id, valid_id, DeviceId, PrintJobId};
use crate::domain::job::{PrintJob, PrintJobState, PrintJobView};
use crate::domain::printer::{PublishedPrinter, PublishedPrinterView};
use crate::error::{listed, outcome, plain, IoErrorKind, PrintError, PrintErrorView, PrintResult};
use crate::infrastructure::messages::{
    ClientBody, ClientBodyView, ErrorCode, PrintClientFrame, PrintClientFrameView, PrintJobResult,
    PrintJobResultView, PrintServerFrame, PrintServerFrameView, ServerBody, ServerBodyView,
};
use crate::infrastructure::quic::client::{creation_step, SubmissionKind, SubmissionStepView};
use crate::infrastructure::quic::replies::{
    error_status, failure_status, law_job_round_trip, ok_status, remote_job, request_number,
    success_status, RemotePrintJobView, MAX_PRINT_REQUEST_TIMEOUT_MS, PRINT_REQUEST_TIMEOUT_MS,
};
use crate::infrastructure::quic::tickets::{takes_upload, UploadTicket, UploadTicketView};
use crate::infrastructure::spool::{
    complete_path, job_id_check, SpoolDirectory, SpoolPath, SpoolPathView,
};
use crate::infrastructure::wire::{
    decode_create_job, decoded_offer, encode_job, encode_printer_list, job_message,
    printer_list_message, CreateJobOffer, CreateJobOfferView,
};
use crate::model::opt;
use crate::text::same;

verus! {

/// Why a stream that another device opens is refused, if it is.
pub open spec fn feature_check(
    feature_id: Seq<char>,
    version_agreed: bool,
) -> core::result::Result<(), PrintErrorView> {
    if feature_id == "arcrelay.print"@ && version_agreed {
        Ok(())
    } else {
        Err(PrintErrorView::Invalid("unexpected print feature stream"@))
    }
}

/// What a stream that another device opens must be for.
pub fn accept_feature(feature_id: &str, version_agreed: bool) -> (r: PrintResult<()>)
    ensures
        outcome(r) == feature_check(feature_id@, version_agreed),
{
    if !same(feature_id, "arcrelay.print") || !version_agreed {
        return Err(PrintError::Invalid("unexpected print feature stream".to_string()));
    }
    Ok(())
}

/// What to do after an attempt to read the next request.
pub enum ConnectionStep {
    /// The other device is done.
    Close,
    /// The connection is broken.
    Fail(PrintError),
    /// The request is answered at once.
    Reply(PrintServerFrame),
    /// The request is to be served.
    Serve(PrintClientFrame),
}

pub enum ConnectionStepView {
    Close,
    Fail(PrintErrorView),
    Reply(PrintServerFrameView),
    Serve(PrintClientFrameView),
}

impl View for ConnectionStep {
    type V = ConnectionStepView;

    open spec fn view(&self) -> ConnectionStepView {
        match *self {
            ConnectionStep::Close => ConnectionStepView::Close,
            ConnectionStep::Fail(error) => ConnectionStepView::Fail(error@),
            ConnectionStep::Reply(frame) => ConnectionStepView::Reply(frame@),
            ConnectionStep::Serve(frame) => ConnectionStepView::Serve(frame@),
        }
    }
}

/// A request with a number and a sensible time limit.
pub open spec fn acceptable(frame: PrintClientFrameView) -> bool {
    frame.request_id != 0 && 0 < frame.timeout_ms <= MAX_PRINT_REQUEST_TIMEOUT_MS
}

/// An answer that only tells of a failure.
pub open spec fn failure_frame(
    request_id: u64,
    code: ErrorCode,
    message: Seq<char>,
) -> PrintServerFrameView {
    PrintServerFrameView {
        request_id,
        body: ServerBodyView::Status(failure_status(code, message)),
    }
}

/// What to do after an attempt to read the next request.
pub open spec fn connection_step(
    read: core::result::Result<PrintClientFrameView, PrintErrorView>,
) -> ConnectionStepView {
    match read {
        Err(PrintErrorView::Io(IoErrorKind::UnexpectedEof, _)) => ConnectionStepView::Close,
        Err(error) => ConnectionStepView::Fail(error),
        Ok(frame) => if acceptable(frame) {
            ConnectionStepView::Serve(frame)
        } else {
            ConnectionStepView::Reply(
                failure_frame(
                    frame.request_id,
                    ErrorCode::InvalidArgument,
                    "print request_id must be non-zero and timeout_ms must be in range"@,
                ),
            )
        },
    }
}

fn status_frame(request_id: u64, code: ErrorCode, message: String) -> (r: PrintServerFrame)
    ensures
        r@ == failure_frame(request_id, code, message@),
{
    PrintServerFrame { request_id, body: ServerBody::Status(error_status(code, message)) }
}

/// What to do after an attempt to read the next request.
pub fn next_request(read: PrintResult<PrintClientFrame>) -> (r: ConnectionStep)
    ensures
        r@ == connection_step(outcome(read)),
{
    let frame = match read {
        Ok(frame) => frame,
        Err(PrintError::Io(IoErrorKind::UnexpectedEof, _)) => {
            return ConnectionStep::Close;
        },
        Err(error) => {
            return ConnectionStep::Fail(error);
        },
    };
    if frame.request_id == 0 || frame.timeout_ms == 0 || frame.timeout_ms
        > MAX_PRINT_REQUEST_TIMEOUT_MS {
        return ConnectionStep::Reply(
            status_frame(
                frame.request_id,
                ErrorCode::InvalidArgument,
                "print request_id must be non-zero and timeout_ms must be in range".to_string(),
            ),
        );
    }
    ConnectionStep::Serve(frame)
}

/// The answer to a request whose time has run out.
pub open spec fn late_frame(request_id: u64) -> PrintServerFrameView {
    failure_frame(
        request_id,
        ErrorCode::DeadlineExceeded,
        "print request deadline exceeded"@,
    )
}

/// The answer to a request whose time has run out.
pub fn deadline_response(request_id: u64) -> (r: PrintServerFrame)
    ensures
        r@ == late_frame(request_id),
{
    status_frame(
        request_id,
        ErrorCode::DeadlineExceeded,
        "print request deadline exceeded".to_string(),
    )
}

/// The device that sends the requests, what this device is called, and where
/// it keeps documents.
pub struct ServerContext {
    pub source: DeviceId,
    pub device_id: String,
    pub device_name: String,
    pub spool: SpoolDirectory,
}

pub struct ServerContextView {
    pub source: Seq<char>,
    pub device_id: Seq<char>,
    pub device_name: Seq<char>,
    pub spool: Seq<char>,
}

impl View for ServerContext {
    type V = ServerContextView;

    open spec fn view(&self) -> ServerContextView {
        ServerContextView {
            source: self.source@,
            device_id: self.device_id@,
            device_name: self.device_name@,
            spool: self.spool@,
        }
    }
}

/// What serving a request asks for. Jobs are offered, looked up and cancelled
/// for the device that has sent the request.
pub enum ServerAction<'a> {
    /// The printers that this device publishes.
    ListPublished(&'a DeviceId),
    Offer(&'a DeviceId, &'a CreateJobOffer),
    MarkValid(&'a PrintJobId),
    /// Is there a document at this place?
    DocumentExists(&'a SpoolPath),
    Submit(&'a PrintJobId, &'a SpoolPath),
    /// Delete the document of a job; a failure is of no consequence.
    DeleteReady(&'a PrintJobId),
    IssueTicket(&'a DeviceId, &'a PrintJob),
    Refresh(&'a PrintJobId, &'a DeviceId),
    Cancel(&'a PrintJobId, &'a DeviceId),
    /// Send the answer: the request has been served.
    Respond(&'a PrintServerFrame),
}

pub enum ServerActionView {
    ListPublished(Seq<char>),
    Offer(Seq<char>, CreateJobOfferView),
    MarkValid(Seq<char>),
    DocumentExists(SpoolPathView),
    Submit(Seq<char>, SpoolPathView),
    DeleteReady(Seq<char>),
    IssueTicket(Seq<char>, PrintJobView),
    Refresh(Seq<char>, Seq<char>),
    Cancel(Seq<char>, Seq<char>),
    Respond(PrintServerFrameView),
}

impl<'a> View for ServerAction<'a> {
    type V = ServerActionView;

    open spec fn view(&self) -> ServerActionView {
        match *self {
            ServerAction::ListPublished(id) => ServerActionView::ListPublished(id@),
            ServerAction::Offer(source, offer) => ServerActionView::Offer(source@, offer@),
            ServerAction::MarkValid(id) => ServerActionView::MarkValid(id@),
            ServerAction::DocumentExists(path) => ServerActionView::DocumentExists(path@),
            ServerAction::Submit(id, path) => ServerActionView::Submit(id@, path@),
            ServerAction::DeleteReady(id) => ServerActionView::DeleteReady(id@),
            ServerAction::IssueTicket(source, job) => ServerActionView::IssueTicket(source@, job@),
            ServerAction::Refresh(id, source) => ServerActionView::Refresh(id@, source@),
            ServerAction::Cancel(id, source) => ServerActionView::Cancel(id@, source@),
            ServerAction::Respond(frame) => ServerActionView::Respond(frame@),
        }
    }
}

/// An answer to a [`ServerAction`].
pub enum ServerReply {
    Published(PrintResult<Vec<PublishedPrinter>>),
    /// Of an offer, a change, a submission, a refresh or a cancellation.
    Job(PrintResult<PrintJob>),
    Exists(PrintResult<bool>),
    Deleted,
    Ticket(Option<UploadTicket>),
}

pub enum ServerReplyView {
    Published(core::result::Result<Seq<PublishedPrinterView>, PrintErrorView>),
    Job(core::result::Result<PrintJobView, PrintErrorView>),
    Exists(core::result::Result<bool, PrintErrorView>),
    Deleted,
    Ticket(Option<UploadTicketView>),
}

impl View for ServerReply {
    type V = ServerReplyView;

    open spec fn view(&self) -> ServerReplyView {
        match *self {
            ServerReply::Published(r) => ServerReplyView::Published(listed(r)),
            ServerReply::Job(r) => ServerReplyView::Job(outcome(r)),
            ServerReply::Exists(r) => ServerReplyView::Exists(plain(r)),
            ServerReply::Deleted => ServerReplyView::Deleted,
            ServerReply::Ticket(t) => ServerReplyView::Ticket(opt(t)),
        }
    }
}

/// Where serving a request stands.
pub enum RequestStage {
    Listing(DeviceId),
    Offering(CreateJobOffer),
    Validating(PrintJobId),
    /// A ready job whose document is to be found.
    Locating(PrintJob, SpoolPath),
    Submitting(PrintJobId, SpoolPath),
    /// The document of a submitted job is deleted.
    Deleting(PrintJobId, PrintJob),
    Ticketing(PrintJob),
    Refreshing(PrintJobId),
    Cancelling(PrintJobId),
    Answered(PrintServerFrame),
}

pub enum RequestStageView {
    Listing(Seq<char>),
    Offering(CreateJobOfferView),
    Validating(Seq<char>),
    Locating(PrintJobView, SpoolPathView),
    Submitting(Seq<char>, SpoolPathView),
    Deleting(Seq<char>, PrintJobView),
    Ticketing(PrintJobView),
    Refreshing(Seq<char>),
    Cancelling(Seq<char>),
    Answered(PrintServerFrameView),
}

impl View for RequestStage {
    type V = RequestStageView;

    open spec fn view(&self) -> RequestStageView {
        match *self {
            RequestStage::Listing(id) => RequestStageView::Listing(id@),
            RequestStage::Offering(offer) => RequestStageView::Offering(offer@),
            RequestStage::Validating(id) => RequestStageView::Validating(id@),
            RequestStage::Locating(job, path) => RequestStageView::Locating(job@, path@),
            RequestStage::Submitting(id, path) => RequestStageView::Submitting(id@, path@),
            RequestStage::Deleting(id, job) => RequestStageView::Deleting(id@, job@),
            RequestStage::Ticketing(job) => RequestStageView::Ticketing(job@),
            RequestStage::Refreshing(id) => RequestStageView::Refreshing(id@),
            RequestStage::Cancelling(id) => RequestStageView::Cancelling(id@),
            RequestStage::Answered(frame) => RequestStageView::Answered(frame@),
        }
    }
}

/// An answer that tells of a job, with a permission to upload if there is one.
pub open spec fn job_result(
    job: PrintJobView,
    ticket: Option<UploadTicketView>,
) -> PrintJobResultView {
    PrintJobResultView {
        status: Some(success_status()),
        job: Some(job_message(job)),
        upload_ticket: match ticket {
            Some(ticket) => ticket.token,
            None => seq![],
        },
        upload_ticket_expires_at_ms: match ticket {
            Some(ticket) => ticket.expires_at_ms,
            None => 0,
        },
    }
}

/// An answer that tells why a request about a job failed.
pub open spec fn job_failure(code: ErrorCode, error: PrintErrorView) -> PrintJobResultView {
    PrintJobResultView {
        status: Some(failure_status(code, error.text())),
        job: None,
        upload_ticket: seq![],
        upload_ticket_expires_at_ms: 0,
    }
}

/// The stage in which a request about a job has been answered.
pub open spec fn answered(request_id: u64, result: PrintJobResultView) -> RequestStageView {
    RequestStageView::Answered(
        PrintServerFrameView { request_id, body: ServerBodyView::JobResult(result) },
    )
}

/// The stage that follows when a job is ready to be submitted.
pub open spec fn submitting_ready(
    context: ServerContextView,
    request_id: u64,
    job: PrintJobView,
) -> RequestStageView {
    match job_id_check(job.id) {
        Ok(_) => RequestStageView::Locating(job, complete_path(context.spool, job.id)),
        Err(error) => answered(request_id, job_failure(ErrorCode::Internal, error)),
    }
}

/// The first stage of serving a request.
pub open spec fn started(
    context: ServerContextView,
    request_id: u64,
    body: ClientBodyView,
) -> RequestStageView {
    match body {
        ClientBodyView::ListPrinters => match parsed_id("device id"@, context.device_id) {
            Ok(id) => RequestStageView::Listing(id),
            Err(error) => RequestStageView::Answered(
                failure_frame(request_id, ErrorCode::Internal, error.text()),
            ),
        },
        ClientBodyView::CreateJob(request) => match decoded_offer(request) {
            Ok(offer) => RequestStageView::Offering(offer),
            Err(error) => answered(request_id, job_failure(ErrorCode::InvalidArgument, error)),
        },
        ClientBodyView::GetJob(id) => match parsed_id("print job id"@, id) {
            Ok(id) => RequestStageView::Refreshing(id),
            Err(error) => answered(request_id, job_failure(ErrorCode::InvalidArgument, error)),
        },
        ClientBodyView::CancelJob(id) => match parsed_id("print job id"@, id) {
            Ok(id) => RequestStageView::Cancelling(id),
            Err(error) => answered(request_id, job_failure(ErrorCode::InvalidArgument, error)),
        },
        ClientBodyView::Other => RequestStageView::Answered(
            failure_frame(
                request_id,
                ErrorCode::Unsupported,
                "this print request is not implemented yet"@,
            ),
        ),
    }
}

impl RequestStageView {
    /// What serving the request asks for.
    pub open spec fn action(self, context: ServerContextView) -> ServerActionView {
        match self {
            RequestStageView::Listing(id) => ServerActionView::ListPublished(id),
            RequestStageView::Offering(offer) => ServerActionView::Offer(context.source, offer),
            RequestStageView::Validating(id) => ServerActionView::MarkValid(id),
            RequestStageView::Locating(_, path) => ServerActionView::DocumentExists(path),
            RequestStageView::Submitting(id, path) => ServerActionView::Submit(id, path),
            RequestStageView::Deleting(id, _) => ServerActionView::DeleteReady(id),
            RequestStageView::Ticketing(job) => ServerActionView::IssueTicket(context.source, job),
            RequestStageView::Refreshing(id) => ServerActionView::Refresh(id, context.source),
            RequestStageView::Cancelling(id) => ServerActionView::Cancel(id, context.source),
            RequestStageView::Answered(frame) => ServerActionView::Respond(frame),
        }
    }

    /// The stage after a job has been offered, changed or looked up.
    pub open spec fn after_job(
        self,
        context: ServerContextView,
        request_id: u64,
        job: core::result::Result<PrintJobView, PrintErrorView>,
    ) -> Self {
        match (self, job) {
            (RequestStageView::Offering(_), Err(error)) => answered(
                request_id,
                job_failure(ErrorCode::FailedPrecondition, error),
            ),
            (RequestStageView::Offering(_), Ok(job)) => match job.state {
                PrintJobState::Validating => RequestStageView::Validating(job.id),
                PrintJobState::Ready => submitting_ready(context, request_id, job),
                _ => RequestStageView::Ticketing(job),
            },
            (RequestStageView::Validating(_), Err(error)) => answered(
                request_id,
                job_failure(ErrorCode::Internal, error),
            ),
            (RequestStageView::Validating(_), Ok(job)) => submitting_ready(
                context,
                request_id,
                job,
            ),
            (RequestStageView::Submitting(_, _), Err(error)) => answered(
                request_id,
                job_failure(ErrorCode::Internal, error),
            ),
            (RequestStageView::Submitting(id, _), Ok(job)) => RequestStageView::Deleting(id, job),
            (RequestStageView::Refreshing(_), Err(error)) => answered(
                request_id,
                job_failure(ErrorCode::NotFound, error),
            ),
            (RequestStageView::Refreshing(_), Ok(job)) => answered(
                request_id,
                job_result(job, None),
            ),
            (RequestStageView::Cancelling(_), Err(error)) => answered(
                request_id,
                job_failure(ErrorCode::FailedPrecondition, error),
            ),
            (RequestStageView::Cancelling(_), Ok(job)) => answered(
                request_id,
                job_result(job, None),
            ),
            _ => self,
        }
    }

    /// The stage after `reply`. An answer to another question changes nothing.
    pub open spec fn resumed(
        self,
        context: ServerContextView,
        request_id: u64,
        reply: ServerReplyView,
    ) -> Self {
        match (self, reply) {
            (_, ServerReplyView::Job(job)) => self.after_job(context, request_id, job),
            (RequestStageView::Listing(_), ServerReplyView::Published(Err(error))) => {
                RequestStageView::Answered(
                    failure_frame(request_id, ErrorCode::Internal, error.text()),
                )
            },
            (RequestStageView::Listing(id), ServerReplyView::Published(Ok(printers))) => {
                RequestStageView::Answered(
                    PrintServerFrameView {
                        request_id,
                        body: ServerBodyView::PrinterList(
                            printer_list_message(
                                id,
                                context.device_name,
                                printers,
                                success_status(),
                            ),
                        ),
                    },
                )
            },
            (RequestStageView::Locating(job, path), ServerReplyView::Exists(exists)) => match exists {
                Err(error) => answered(request_id, job_failure(ErrorCode::Internal, error)),
                Ok(true) => RequestStageView::Submitting(job.id, path),
                Ok(false) => answered(
                    request_id,
                    job_failure(
                        ErrorCode::Internal,
                        PrintErrorView::InvalidState(
                            "ready print document is missing from the spool"@,
                        ),
                    ),
                ),
            },
            (RequestStageView::Deleting(_, job), ServerReplyView::Deleted) => {
                RequestStageView::Ticketing(job)
            },
            (RequestStageView::Ticketing(job), ServerReplyView::Ticket(ticket)) => answered(
                request_id,
                job_result(job, ticket),
            ),
            _ => self,
        }
    }

    /// How many answers serving the request may still need.
    pub open spec fn remaining(self) -> nat {
        match self {
            RequestStageView::Listing(_) => 1,
            RequestStageView::Offering(_) => 6,
            RequestStageView::Validating(_) => 5,
            RequestStageView::Locating(_, _) => 4,
            RequestStageView::Submitting(_, _) => 3,
            RequestStageView::Deleting(_, _) => 2,
            RequestStageView::Ticketing(_) => 1,
            RequestStageView::Refreshing(_) => 1,
            RequestStageView::Cancelling(_) => 1,
            RequestStageView::Answered(_) => 0,
        }
    }
}

fn answer(request_id: u64, result: PrintJobResult) -> (r: RequestStage)
    ensures
        r@ == answered(request_id, result@),
{
    RequestStage::Answered(PrintServerFrame { request_id, body: ServerBody::JobResult(result) })
}

fn fail(request_id: u64, code: ErrorCode, error: &PrintError) -> (r: RequestStage)
    ensures
        r@ == answered(request_id, job_failure(code, error@)),
{
    let result = PrintJobResult {
        status: Some(error_status(code, error.to_string())),
        job: None,
        upload_ticket: Vec::new(),
        upload_ticket_expires_at_ms: 0,
    };
    assert(result@.upload_ticket =~= seq![]);
    answer(request_id, result)
}

fn succeed(request_id: u64, job: &PrintJob, ticket: Option<UploadTicket>) -> (r: RequestStage)
    ensures
        r@ == answered(request_id, job_result(job@, opt(ticket))),
{
    let (upload_ticket, upload_ticket_expires_at_ms): (Vec<u8>, i64) = match ticket {
        Some(ticket) => (ticket.token, ticket.expires_at_ms),
        None => (Vec::new(), 0),
    };
    let result = PrintJobResult {
        status: Some(ok_status()),
        job: Some(encode_job(job)),
        upload_ticket,
        upload_ticket_expires_at_ms,
    };
    assert(ticket is None ==> result@.upload_ticket =~= seq![]);
    answer(request_id, result)
}

fn submit_ready(context: &ServerContext, request_id: u64, job: PrintJob) -> (r: RequestStage)
    ensures
        r@ == submitting_ready(context@, request_id, job@),
{
    match context.spool.ready_path(&job.id) {
        Ok(path) => RequestStage::Locating(job, path),
        Err(error) => fail(request_id, ErrorCode::Internal, &error),
    }
}

impl RequestStage {
    /// What serving the request asks for.
    pub fn action<'a>(&'a self, context: &'a ServerContext) -> (r: ServerAction<'a>)
        ensures
            r@ == self@.action(context@),
    {
        match self {
            RequestStage::Listing(id) => ServerAction::ListPublished(id),
            RequestStage::Offering(offer) => ServerAction::Offer(&context.source, offer),
            RequestStage::Validating(id) => ServerAction::MarkValid(id),
            RequestStage::Locating(_, path) => ServerAction::DocumentExists(path),
            RequestStage::Submitting(id, path) => ServerAction::Submit(id, path),
            RequestStage::Deleting(id, _) => ServerAction::DeleteReady(id),
            RequestStage::Ticketing(job) => ServerAction::IssueTicket(&context.source, job),
            RequestStage::Refreshing(id) => ServerAction::Refresh(id, &context.source),
            RequestStage::Cancelling(id) => ServerAction::Cancel(id, &context.source),
            RequestStage::Answered(frame) => ServerAction::Respond(frame),
        }
    }

    /// The first stage of serving a request.
    pub fn start(context: &ServerContext, request_id: u64, body: ClientBody) -> (r: Self)
        ensures
            r@ == started(context@, request_id, body@),
    {
        match body {
            ClientBody::ListPrinters => match DeviceId::parse(context.device_id.as_str()) {
                Ok(id) => RequestStage::Listing(id),
                Err(error) => RequestStage::Answered(
                    status_frame(request_id, ErrorCode::Internal, error.to_string()),
                ),
            },
            ClientBody::CreateJob(request) => match decode_create_job(request) {
                Ok(offer) => RequestStage::Offering(offer),
                Err(error) => fail(request_id, ErrorCode::InvalidArgument, &error),
            },
            ClientBody::GetJob(id) => match PrintJobId::parse(id.as_str()) {
                Ok(id) => RequestStage::Refreshing(id),
                Err(error) => fail(request_id, ErrorCode::InvalidArgument, &error),
            },
            ClientBody::CancelJob(id) => match PrintJobId::parse(id.as_str()) {
                Ok(id) => RequestStage::Cancelling(id),
                Err(error) => fail(request_id, ErrorCode::InvalidArgument, &error),
            },
            ClientBody::Other => RequestStage::Answered(
                status_frame(
                    request_id,
                    ErrorCode::Unsupported,
                    "this print request is not implemented yet".to_string(),
                ),
            ),
        }
    }

    fn after_job(
        self,
        context: &ServerContext,
        request_id: u64,
        job: PrintResult<PrintJob>,
    ) -> (r: Self)
        ensures
            r@ == self@.after_job(context@, request_id, outcome(job)),
    {
        match (self, job) {
            (RequestStage::Offering(_), Err(error)) => fail(
                request_id,
                ErrorCode::FailedPrecondition,
                &error,
            ),
            (RequestStage::Offering(_), Ok(job)) => match job.state {
                PrintJobState::Validating => RequestStage::Validating(job.id),
                PrintJobState::Ready => submit_ready(context, request_id, job),
                _ => RequestStage::Ticketing(job),
            },
            (RequestStage::Validating(_), Err(error)) => fail(
                request_id,
                ErrorCode::Internal,
                &error,
            ),
            (RequestStage::Validating(_), Ok(job)) => submit_ready(context, request_id, job),
            (RequestStage::Submitting(_, _), Err(error)) => fail(
                request_id,
                ErrorCode::Internal,
                &error,
            ),
            (RequestStage::Submitting(id, _), Ok(job)) => RequestStage::Deleting(id, job),
            (RequestStage::Refreshing(_), Err(error)) => fail(
                request_id,
                ErrorCode::NotFound,
                &error,
            ),
            (RequestStage::Refreshing(_), Ok(job)) => succeed(request_id, &job, None),
            (RequestStage::Cancelling(_), Err(error)) => fail(
                request_id,
                ErrorCode::FailedPrecondition,
                &error,
            ),
            (RequestStage::Cancelling(_), Ok(job)) => succeed(request_id, &job, None),
            (other, _) => other,
        }
    }

    /// Takes an answer and moves on.
    pub fn resume(self, context: &ServerContext, request_id: u64, reply: ServerReply) -> (r: Self)
        ensures
            r@ == self@.resumed(context@, request_id, reply@),
    {
        match (self, reply) {
            (stage, ServerReply::Job(job)) => stage.after_job(context, request_id, job),
            (RequestStage::Listing(_), ServerReply::Published(Err(error))) => {
                RequestStage::Answered(
                    status_frame(request_id, ErrorCode::Internal, error.to_string()),
                )
            },
            (RequestStage::Listing(id), ServerReply::Published(Ok(printers))) => {
                RequestStage::Answered(
                    PrintServerFrame {
                        request_id,
                        body: ServerBody::PrinterList(
                            encode_printer_list(
                                &id,
                                context.device_name.as_str(),
                                &printers,
                                ok_status(),
                            ),
                        ),
                    },
                )
            },
            (RequestStage::Locating(job, path), ServerReply::Exists(exists)) => match exists {
                Err(error) => fail(request_id, ErrorCode::Internal, &error),
                Ok(exists) => {
                    if exists {
                        RequestStage::Submitting(job.id, path)
                    } else {
                        fail(
                            request_id,
                            ErrorCode::Internal,
                            &PrintError::InvalidState(
                                "ready print document is missing from the spool".to_string(),
                            ),
                        )
                    }
                },
            },
            (RequestStage::Deleting(_, job), ServerReply::Deleted) => RequestStage::Ticketing(job),
            (RequestStage::Ticketing(job), ServerReply::Ticket(ticket)) => succeed(
                request_id,
                &job,
                ticket,
            ),
            (other, _) => other,
        }
    }
}

/// Serving a request comes to an end: each answer that is taken brings it
/// nearer.
pub proof fn law_requests_are_answered(
    stage: RequestStageView,
    context: ServerContextView,
    request_id: u64,
    reply: ServerReplyView,
)
    ensures
        stage.resumed(context, request_id, reply) == stage || stage.resumed(
            context,
            request_id,
            reply,
        ).remaining() < stage.remaining(),
{
}

/// Whether `stage` has been answered, if at all, under the number of its
/// request.
pub open spec fn answers_request(stage: RequestStageView, request_id: u64) -> bool {
    stage matches RequestStageView::Answered(frame) ==> frame.request_id == request_id
}

/// An answer bears the number of its request.
pub proof fn law_answers_bear_request_number(
    stage: RequestStageView,
    context: ServerContextView,
    request_id: u64,
    body: ClientBodyView,
    reply: ServerReplyView,
)
    requires
        answers_request(stage, request_id),
    ensures
        answers_request(started(context, request_id, body), request_id),
        answers_request(stage.resumed(context, request_id, reply), request_id),
{
}

/// A request that is refused outright is answered with its own number and an
/// invitation to change it; all others are served.
pub proof fn law_bad_requests_are_refused(frame: PrintClientFrameView)
    ensures
        match connection_step(Ok(frame)) {
            ConnectionStepView::Serve(served) => served == frame && acceptable(frame),
            ConnectionStepView::Reply(reply) => !acceptable(frame) && reply.request_id
                == frame.request_id && (reply.body matches ServerBodyView::Status(
                status,
            ) && status.code == ErrorCode::InvalidArgument),
            _ => false,
        },
{
}

/// A document is submitted in answer to an offer only for a job that is
/// ready, and only if the document is there.
pub proof fn law_only_present_documents_are_submitted(
    stage: RequestStageView,
    context: ServerContextView,
    request_id: u64,
    reply: ServerReplyView,
    id: Seq<char>,
    path: SpoolPathView,
)
    requires
        stage.resumed(context, request_id, reply).action(context) == ServerActionView::Submit(
            id,
            path,
        ),
        stage.action(context) != ServerActionView::Submit(id, path),
    ensures
        stage.action(context) == ServerActionView::DocumentExists(path),
        reply == ServerReplyView::Exists(Ok(true)),
{
}

/// A request as this crate sends it is never refused outright.
pub proof fn law_own_requests_are_served(next: u64, body: ClientBodyView)
    ensures
        acceptable(
            PrintClientFrameView {
                request_id: request_number(next),
                timeout_ms: PRINT_REQUEST_TIMEOUT_MS,
                body,
            },
        ),
{
}

/// What a device is answered about a job is what it reads in the answer.
pub proof fn law_answers_are_read(job: PrintJobView, request_id: u64)
    requires
        valid_id(job.id),
    ensures
        answered(request_id, job_result(job, None)) matches RequestStageView::Answered(frame)
            && remote_job(frame, request_id) == Ok::<RemotePrintJobView, PrintErrorView>(
            RemotePrintJobView {
                id: job.id,
                state: job.state,
                failure_message: job.failure_message,
            },
        ),
{
    law_job_round_trip(job);
}

/// A job that waits for its document is answered with a permission that the
/// device finds and can upload with.
pub proof fn law_offers_lead_to_uploads(
    job: PrintJobView,
    ticket: UploadTicketView,
    request_id: u64,
    kind: SubmissionKind,
)
    requires
        valid_id(job.id),
        takes_upload(job.state),
        ticket.token.len() > 0,
        ticket.expires_at_ms > 0,
    ensures
        answered(request_id, job_result(job, Some(ticket))) matches RequestStageView::Answered(
            frame,
        ) && creation_step(frame, request_id, kind) == Ok::<SubmissionStepView, PrintErrorView>(
            SubmissionStepView::Upload { job_id: job.id, ticket: ticket.token },
        ),
{
}

} // verus!
