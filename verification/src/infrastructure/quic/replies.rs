//! Requests, answers and their outcomes.
use vstd::prelude::*;
use vstd::string::*;

use crate::domain::id::{parsed_id, valid_id, PrintJobId};
use crate::domain::job::{PrintJobState, PrintJobView};
use crate::error::{outcome, IoErrorKind, PrintError, PrintErrorView, PrintResult};
use crate::infrastructure::messages::{
    ClientBody, ErrorCode, PrintClientFrame, PrintClientFrameView, PrintJobInfo, PrintJobInfoView,
    PrintJobResult, PrintJobResultView, PrintServerFrame, PrintServerFrameView, RecoveryAction,
    ServerBody, ServerBodyView, Status, StatusView, WireJobState,
};
use crate::infrastructure::wire::job_message;
use crate::model::opt;
use crate::text::{bytes_between, decimal, decimal_text};

verus! {

/// How long a request may take, in milliseconds.
pub const PRINT_REQUEST_TIMEOUT_MS: u32 = 30_000;

/// How long a request may ask to take at most, in milliseconds.
pub const MAX_PRINT_REQUEST_TIMEOUT_MS: u32 = 120_000;

/// The outcome of a request that succeeded.
pub open spec fn success_status() -> StatusView {
    StatusView {
        code: ErrorCode::Success,
        message: seq![],
        retryable: false,
        retry_after_ms: 0,
        recovery_action: RecoveryAction::Nothing,
        error_id: seq![],
    }
}

/// The outcome of a request that succeeded.
pub fn ok_status() -> (r: Status)
    ensures
        r@ == success_status(),
{
    let r = Status {
        code: ErrorCode::Success,
        message: String::new(),
        retryable: false,
        retry_after_ms: 0,
        recovery_action: RecoveryAction::Nothing,
        error_id: String::new(),
    };
    assert(r@.message =~= seq![] && r@.error_id =~= seq![]);
    r
}

/// What the sender of a failed request can do about it.
pub open spec fn recovery_for(code: ErrorCode) -> RecoveryAction {
    match code {
        ErrorCode::Busy
        | ErrorCode::ResourceExhausted
        | ErrorCode::DeadlineExceeded
        | ErrorCode::Unavailable => RecoveryAction::RetryWithBackoff,
        ErrorCode::Conflict => RecoveryAction::Refresh,
        ErrorCode::InvalidArgument | ErrorCode::FailedPrecondition => RecoveryAction::ChangeRequest,
        _ => RecoveryAction::Nothing,
    }
}

/// The outcome of a request that failed.
pub open spec fn failure_status(code: ErrorCode, message: Seq<char>) -> StatusView {
    StatusView {
        code,
        message,
        retryable: recovery_for(code) == RecoveryAction::RetryWithBackoff,
        retry_after_ms: 0,
        recovery_action: recovery_for(code),
        error_id: seq![],
    }
}

/// The outcome of a request that failed.
pub fn error_status(code: ErrorCode, message: String) -> (r: Status)
    ensures
        r@ == failure_status(code, message@),
{
    let recovery_action = match code {
        ErrorCode::Busy
        | ErrorCode::ResourceExhausted
        | ErrorCode::DeadlineExceeded
        | ErrorCode::Unavailable => RecoveryAction::RetryWithBackoff,
        ErrorCode::Conflict => RecoveryAction::Refresh,
        ErrorCode::InvalidArgument | ErrorCode::FailedPrecondition => RecoveryAction::ChangeRequest,
        _ => RecoveryAction::Nothing,
    };
    let r = Status {
        code,
        message,
        retryable: match recovery_action {
            RecoveryAction::Retry | RecoveryAction::RetryWithBackoff => true,
            _ => false,
        },
        retry_after_ms: 0,
        recovery_action,
        error_id: String::new(),
    };
    assert(r@.error_id =~= seq![]);
    r
}

/// What an outcome means for the one who asked.
pub open spec fn status_check(status: Option<StatusView>) -> core::result::Result<
    (),
    PrintErrorView,
> {
    match status {
        None => Err(PrintErrorView::Backend("print status is missing"@)),
        Some(status) => if status.code == ErrorCode::Success {
            Ok(())
        } else if status.message.len() == 0 {
            Err(PrintErrorView::Backend("print request failed"@))
        } else {
            Err(PrintErrorView::Backend(status.message))
        },
    }
}

/// What an outcome means for the one who asked.
pub fn require_ok(status: Option<Status>) -> (r: PrintResult<()>)
    ensures
        outcome(r) == status_check(opt(status)),
{
    match status {
        None => Err(PrintError::Backend("print status is missing".to_string())),
        Some(status) => {
            if status.code == ErrorCode::Success {
                return Ok(());
            }
            if status.message.as_str().is_empty() {
                proof {
                    vstd::utf8::encode_utf8_decode_utf8(status.message@);
                    if status.message@.len() > 0 {
                        vstd::utf8::encode_utf8_first_scalar(status.message@);
                    }
                }
                return Err(PrintError::Backend("print request failed".to_string()));
            }
            Err(PrintError::Backend(status.message))
        },
    }
}

/// The permission to upload that an answer holds, if it holds one.
pub open spec fn ticket_check(result: PrintJobResultView) -> core::result::Result<
    Seq<u8>,
    PrintErrorView,
> {
    if result.upload_ticket.len() == 0 || result.upload_ticket_expires_at_ms <= 0 {
        Err(PrintErrorView::Backend("print job response is missing its upload ticket"@))
    } else {
        Ok(result.upload_ticket)
    }
}

/// The permission to upload that an answer holds, if it holds one.
pub fn require_upload_ticket(result: &PrintJobResult) -> (r: PrintResult<Vec<u8>>)
    ensures
        outcome(r) == ticket_check(result@),
{
    if result.upload_ticket.len() == 0 || result.upload_ticket_expires_at_ms <= 0 {
        return Err(
            PrintError::Backend("print job response is missing its upload ticket".to_string()),
        );
    }
    let copy = bytes_between(result.upload_ticket.as_slice(), 0, result.upload_ticket.len());
    assert(copy@ =~= result.upload_ticket@);
    Ok(copy)
}

/// A job on another device.
#[derive(Debug, PartialEq, Eq)]
pub struct RemotePrintJob {
    pub id: PrintJobId,
    pub state: PrintJobState,
    pub failure_message: Option<String>,
}

pub struct RemotePrintJobView {
    pub id: Seq<char>,
    pub state: PrintJobState,
    pub failure_message: Option<Seq<char>>,
}

impl View for RemotePrintJob {
    type V = RemotePrintJobView;

    open spec fn view(&self) -> RemotePrintJobView {
        RemotePrintJobView {
            id: self.id@,
            state: self.state,
            failure_message: opt(self.failure_message),
        }
    }
}

impl Clone for RemotePrintJob {
    fn clone(&self) -> (r: Self)
        ensures
            r@ == self@,
    {
        RemotePrintJob {
            id: self.id.clone(),
            state: self.state,
            failure_message: match &self.failure_message {
                Some(message) => Some(message.clone()),
                None => None,
            },
        }
    }
}

/// The job that a message describes.
pub open spec fn decoded_job(value: PrintJobInfoView) -> core::result::Result<
    RemotePrintJobView,
    PrintErrorView,
> {
    match value.state {
        WireJobState::Known(state) => match parsed_id("print job id"@, value.job_id) {
            Ok(id) => Ok(
                RemotePrintJobView { id, state, failure_message: value.failure_message },
            ),
            Err(error) => Err(error),
        },
        _ => Err(PrintErrorView::Invalid("invalid remote print job state"@)),
    }
}

/// The job that a message describes.
pub fn decode_remote_job(value: PrintJobInfo) -> (r: PrintResult<RemotePrintJob>)
    ensures
        outcome(r) == decoded_job(value@),
{
    let state = match value.state {
        WireJobState::Known(state) => state,
        _ => {
            return Err(PrintError::Invalid("invalid remote print job state".to_string()));
        },
    };
    match PrintJobId::parse(value.job_id.as_str()) {
        Ok(id) => Ok(RemotePrintJob { id, state, failure_message: value.failure_message }),
        Err(error) => Err(error),
    }
}

/// The answer to a request about a job.
pub open spec fn job_answer(body: ServerBodyView) -> core::result::Result<
    PrintJobResultView,
    PrintErrorView,
> {
    match body {
        ServerBodyView::JobResult(result) => match status_check(result.status) {
            Ok(_) => Ok(result),
            Err(error) => Err(error),
        },
        ServerBodyView::Status(status) => match status_check(Some(status)) {
            Ok(_) => Err(PrintErrorView::Backend("print job response is missing"@)),
            Err(error) => Err(error),
        },
        _ => Err(PrintErrorView::Backend("print job response is missing"@)),
    }
}

pub(crate) fn clone_status(status: &Option<Status>) -> (r: Option<Status>)
    ensures
        opt(r) == opt(*status),
{
    match status {
        None => None,
        Some(s) => Some(
            Status {
                code: s.code,
                message: s.message.clone(),
                retryable: s.retryable,
                retry_after_ms: s.retry_after_ms,
                recovery_action: s.recovery_action,
                error_id: s.error_id.clone(),
            },
        ),
    }
}

/// The answer to a request about a job.
pub fn require_job_result(body: ServerBody) -> (r: PrintResult<PrintJobResult>)
    ensures
        outcome(r) == job_answer(body@),
{
    match body {
        ServerBody::JobResult(result) => match require_ok(clone_status(&result.status)) {
            Ok(_) => Ok(result),
            Err(error) => Err(error),
        },
        ServerBody::Status(status) => match require_ok(Some(status)) {
            Ok(_) => Err(PrintError::Backend("print job response is missing".to_string())),
            Err(error) => Err(error),
        },
        _ => Err(PrintError::Backend("print job response is missing".to_string())),
    }
}

/// The answer to the request with this number.
pub open spec fn answer_to(frame: PrintServerFrameView, request_id: u64) -> core::result::Result<
    ServerBodyView,
    PrintErrorView,
> {
    if frame.request_id != request_id {
        Err(
            PrintErrorView::Invalid(
                "print response id "@ + decimal_text(frame.request_id as nat)
                    + " does not match request "@ + decimal_text(request_id as nat),
            ),
        )
    } else {
        Ok(frame.body)
    }
}

/// The answer to the request with this number.
pub fn correlate(frame: PrintServerFrame, request_id: u64) -> (r: PrintResult<ServerBody>)
    ensures
        outcome(r) == answer_to(frame@, request_id),
{
    if frame.request_id != request_id {
        let mut message = "print response id ".to_string();
        message.append(decimal(frame.request_id).as_str());
        message.append(" does not match request ");
        message.append(decimal(request_id).as_str());
        return Err(PrintError::Invalid(message));
    }
    Ok(frame.body)
}

/// The job that an answer to the request with this number tells of.
pub open spec fn remote_job(frame: PrintServerFrameView, request_id: u64) -> core::result::Result<
    RemotePrintJobView,
    PrintErrorView,
> {
    match answer_to(frame, request_id) {
        Err(error) => Err(error),
        Ok(body) => match job_answer(body) {
            Err(error) => Err(error),
            Ok(result) => match result.job {
                None => Err(PrintErrorView::Backend("print job is missing"@)),
                Some(job) => decoded_job(job),
            },
        },
    }
}

/// The job that an answer to the request with this number tells of.
pub fn remote_job_result(frame: PrintServerFrame, request_id: u64) -> (r: PrintResult<
    RemotePrintJob,
>)
    ensures
        outcome(r) == remote_job(frame@, request_id),
{
    let body = match correlate(frame, request_id) {
        Ok(body) => body,
        Err(error) => {
            return Err(error);
        },
    };
    let result = match require_job_result(body) {
        Ok(result) => result,
        Err(error) => {
            return Err(error);
        },
    };
    match result.job {
        Some(job) => decode_remote_job(job),
        None => Err(PrintError::Backend("print job is missing".to_string())),
    }
}

/// Why a frame could not be sent or received.
#[derive(Debug)]
pub enum FrameError {
    Io(IoErrorKind, String),
    Other(String),
}

/// An error of the network, with what was being done.
pub fn network_error(context: &str, error: &str) -> (r: PrintError)
    ensures
        r@ == PrintErrorView::Backend(context@ + ": "@ + error@),
{
    let mut message = context.to_string();
    message.append(": ");
    message.append(error);
    PrintError::Backend(message)
}

/// An error in sending or receiving a frame, with what was being done.
pub fn frame_error(error: FrameError, context: &str) -> (r: PrintError)
    ensures
        r@ == match error {
            FrameError::Io(kind, message) => PrintErrorView::Io(kind, message@),
            FrameError::Other(message) => PrintErrorView::Backend(context@ + ": "@ + message@),
        },
{
    match error {
        FrameError::Io(kind, message) => PrintError::Io(kind, message),
        FrameError::Other(message) => network_error(context, message.as_str()),
    }
}

/// The numbers of requests. Zero is never given out.
#[derive(Debug)]
pub struct RequestCounter {
    next: u64,
}

impl View for RequestCounter {
    type V = u64;

    closed spec fn view(&self) -> u64 {
        self.next
    }
}

/// The number that follows `n`; after the largest comes zero.
pub open spec fn following(n: u64) -> u64 {
    if n == u64::MAX {
        0
    } else {
        (n + 1) as u64
    }
}

/// The number of a request, where `next` is the next in the row.
pub open spec fn request_number(next: u64) -> u64 {
    if next == 0 {
        1
    } else {
        next
    }
}

impl RequestCounter {
    pub fn new() -> (r: Self)
        ensures
            r@ == 1,
    {
        RequestCounter { next: 1 }
    }

    fn take(&mut self) -> (r: u64)
        ensures
            r == old(self)@,
            final(self)@ == following(old(self)@),
    {
        let n: u64 = self.next;
        self.next = n.wrapping_add(1);
        n
    }

    /// A request, under a number of its own.
    pub fn new_client_frame(&mut self, body: ClientBody) -> (r: PrintClientFrame)
        ensures
            r@ == (PrintClientFrameView {
                request_id: request_number(old(self)@),
                timeout_ms: PRINT_REQUEST_TIMEOUT_MS,
                body: body@,
            }),
            r.request_id != 0,
            final(self)@ == following(request_number(old(self)@)),
    {
        let mut request_id: u64 = self.take();
        if request_id == 0 {
            request_id = self.take();
        }
        PrintClientFrame { request_id, timeout_ms: PRINT_REQUEST_TIMEOUT_MS, body }
    }
}

/// Requests get different numbers until all numbers are used up.
pub proof fn law_request_numbers_differ(next: u64)
    ensures
        request_number(next) != request_number(following(request_number(next))),
        request_number(next) != 0,
        request_number(next) < u64::MAX ==> request_number(following(request_number(next)))
            == request_number(next) + 1,
{
}

/// A failed request is reported as failed, with its message.
pub proof fn law_failures_are_reported(code: ErrorCode, message: Seq<char>)
    requires
        code != ErrorCode::Success,
        message.len() > 0,
    ensures
        status_check(Some(failure_status(code, message))) == Err::<(), PrintErrorView>(
            PrintErrorView::Backend(message),
        ),
        status_check(Some(success_status())) is Ok,
{
}

/// What a device tells of a job is what another device learns.
pub proof fn law_job_round_trip(job: PrintJobView)
    requires
        valid_id(job.id),
    ensures
        decoded_job(job_message(job)) == Ok::<RemotePrintJobView, PrintErrorView>(
            RemotePrintJobView {
                id: job.id,
                state: job.state,
                failure_message: job.failure_message,
            },
        ),
{
}

} // verus!
