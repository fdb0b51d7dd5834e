//! Serving the print queues of this machine.
use vstd::prelude::*;
use vstd::string::*;

use crate::bytes::{signed, to_signed};
use crate::domain::id::{valid_id, PrintJobId};
use crate::domain::job::{PrintJobState, PrintOptions, PrintOptionsView};
use crate::domain::TimestampMs;
use crate::error::{outcome, PrintErrorView, PrintResult};
use crate::infrastructure::ipp::jobs::{
    by_number, job_numbered, lemma_numbered, remembered, resolved, submitted_binding, with_job,
    wrapped_next, IppBridge, IppBridgeView, JobEntry, JobEntryView,
};
use crate::infrastructure::ipp::options::{
    document_name, options_from_request, requested_name, requested_options,
};
use crate::infrastructure::ipp::printer::{
    printer_attributes_response, printer_payload, CANCEL_JOB, GET_JOBS, GET_JOB_ATTRIBUTES,
    GET_PRINTER_ATTRIBUTES, IPP_BAD_REQUEST, IPP_INTERNAL_ERROR, IPP_NOT_FOUND, IPP_OK,
    IPP_OPERATION_NOT_SUPPORTED, PRINT_JOB, VALIDATE_JOB,
};
use crate::infrastructure::ipp::request::{parsed_request, IppRequest, IppRequestView};
use crate::infrastructure::ipp::response::{
    enum_attribute, integer_attribute, ipp_response, number_bytes, operation_attributes,
    operation_bytes, put_byte, put_bytes, response_bytes, text_attribute, text_bytes,
};
use crate::infrastructure::quic::printers::{RemotePrinter, RemotePrinterView};
use crate::infrastructure::quic::replies::{RemotePrintJob, RemotePrintJobView};
use crate::infrastructure::ranges::begins_with;
use crate::model::{lemma_filter_drops_all, lemma_filter_keeps_all, opt, views};
use crate::text::{bytes_between, decimal, decimal_text, same};

verus! {

/// How much of a request can hold attributes, in bytes.
pub const MAX_IPP_ATTRIBUTE_BYTES: usize = 64 * 1024;

/// How long a whole request can be, in bytes: the largest document, and its
/// attributes.
pub const MAX_IPP_REQUEST_BYTES: usize = 500 * 1024 * 1024 + MAX_IPP_ATTRIBUTE_BYTES;

/// A request that arrives in pieces: its length so far, and its beginning, as
/// far as that can hold attributes.
pub struct IppIntake {
    limit: usize,
    total: usize,
    prefix: Vec<u8>,
}

pub struct IppIntakeView {
    pub limit: usize,
    pub total: usize,
    pub prefix: Seq<u8>,
}

impl View for IppIntake {
    type V = IppIntakeView;

    closed spec fn view(&self) -> IppIntakeView {
        IppIntakeView { limit: self.limit, total: self.total, prefix: self.prefix@ }
    }
}

/// The answer to bytes that are no request.
pub open spec fn unread_answer() -> Seq<u8> {
    response_bytes(seq![2u8, 0u8], IPP_BAD_REQUEST, 0, seq![])
}

/// The beginning of `bytes`, as far as that can hold attributes.
pub open spec fn beginning(bytes: Seq<u8>) -> Seq<u8> {
    if bytes.len() <= MAX_IPP_ATTRIBUTE_BYTES {
        bytes
    } else {
        bytes.take(MAX_IPP_ATTRIBUTE_BYTES as int)
    }
}

impl IppIntakeView {
    /// Whether there is room for `size` bytes more.
    pub open spec fn has_room(self, size: int) -> bool {
        self.total + size <= usize::MAX && self.total + size <= self.limit
    }

    /// The request with one more piece.
    pub open spec fn with_data(self, data: Seq<u8>) -> Self {
        IppIntakeView {
            total: (self.total + data.len()) as usize,
            prefix: beginning(self.prefix + data),
            ..self
        }
    }

    /// The length and the beginning belong to a request of these bytes.
    pub open spec fn holds(self, bytes: Seq<u8>) -> bool {
        self.total == bytes.len() && self.prefix == beginning(bytes)
    }
}

impl IppIntake {
    /// The beginning is no longer than what can hold attributes.
    pub open spec fn wf(&self) -> bool {
        self@.prefix.len() <= MAX_IPP_ATTRIBUTE_BYTES
    }

    /// A request of which nothing has arrived, and of which no more than
    /// `limit` bytes are taken.
    pub fn new(limit: usize) -> (r: Self)
        ensures
            r.wf(),
            r@ == (IppIntakeView { limit, total: 0, prefix: seq![] }),
    {
        let r = IppIntake { limit, total: 0, prefix: Vec::new() };
        assert(r@.prefix =~= seq![]);
        r
    }

    /// Takes the next piece; tells whether there was room for it.
    pub fn take(&mut self, data: &[u8]) -> (r: bool)
        requires
            old(self).wf(),
        ensures
            final(self).wf(),
            r == old(self)@.has_room(data@.len() as int),
            final(self)@ == if r {
                old(self)@.with_data(data@)
            } else {
                old(self)@
            },
    {
        if data.len() > usize::MAX - self.total {
            return false;
        }
        if self.total + data.len() > self.limit {
            return false;
        }
        self.total = self.total + data.len();
        let room: usize = MAX_IPP_ATTRIBUTE_BYTES - self.prefix.len();
        let count: usize = if data.len() <= room {
            data.len()
        } else {
            room
        };
        let ghost before = self.prefix@;
        let part = bytes_between(data, 0, count);
        put_bytes(&mut self.prefix, part.as_slice());
        assert(self.prefix@ =~= beginning(before + data@));
        true
    }

    /// The request, or the answer to bytes that are none.
    pub fn parse(&self) -> (r: core::result::Result<IppRequest, Vec<u8>>)
        ensures
            match parsed_request(self@.prefix, self@.total as u64) {
                Ok(request) => r matches Ok(q) && q@ == request,
                Err(_) => r matches Err(answer) && answer@ == unread_answer(),
            },
    {
        parse_or_answer(self.prefix.as_slice(), self.total as u64)
    }
}

fn parse_or_answer(bytes: &[u8], total: u64) -> (r: core::result::Result<IppRequest, Vec<u8>>)
    ensures
        match parsed_request(bytes@, total) {
            Ok(request) => r matches Ok(q) && q@ == request,
            Err(_) => r matches Err(answer) && answer@ == response_bytes(
                seq![2u8, 0u8],
                IPP_BAD_REQUEST,
                0,
                seq![],
            ),
        },
{
    match IppRequest::parse(bytes, total) {
        Ok(request) => Ok(request),
        Err(_) => {
            let version: [u8; 2] = [2, 0];
            let nothing: Vec<u8> = Vec::new();
            assert(version@ =~= seq![2u8, 0u8]);
            assert(nothing@ =~= seq![]);
            Err(ipp_response(&version, IPP_BAD_REQUEST, 0, nothing))
        },
    }
}

/// A request about a job, which carries no document: all of its bytes.
pub struct IppJobIntake {
    bytes: Vec<u8>,
}

impl View for IppJobIntake {
    type V = Seq<u8>;

    closed spec fn view(&self) -> Seq<u8> {
        self.bytes@
    }
}

impl IppJobIntake {
    pub fn new() -> (r: Self)
        ensures
            r@ == Seq::<u8>::empty(),
    {
        IppJobIntake { bytes: Vec::new() }
    }

    /// Takes the next piece; tells whether there was room for it.
    pub fn take(&mut self, data: &[u8]) -> (r: bool)
        ensures
            r == (old(self)@.len() + data@.len() <= MAX_IPP_ATTRIBUTE_BYTES),
            final(self)@ == if r {
                old(self)@ + data@
            } else {
                old(self)@
            },
    {
        if data.len() > MAX_IPP_ATTRIBUTE_BYTES || self.bytes.len() > MAX_IPP_ATTRIBUTE_BYTES
            - data.len() {
            return false;
        }
        put_bytes(&mut self.bytes, data);
        true
    }

    /// The request, or the answer to bytes that are none.
    pub fn parse(&self) -> (r: core::result::Result<IppRequest, Vec<u8>>)
        ensures
            match parsed_request(self@, self@.len() as u64) {
                Ok(request) => r matches Ok(q) && q@ == request,
                Err(_) => r matches Err(answer) && answer@ == unread_answer(),
            },
    {
        parse_or_answer(self.bytes.as_slice(), self.bytes.len() as u64)
    }
}

/// An answer that says no more than its outcome.
pub open spec fn bare_response(request: IppRequestView, status: u16) -> Seq<u8> {
    response_bytes(request.version, status, request.request_id, operation_bytes())
}

fn bare(request: &IppRequest, status: u16) -> (r: Vec<u8>)
    ensures
        r@ == bare_response(request@, status),
{
    ipp_response(&request.version, status, request.request_id, operation_attributes())
}

/// What a request asks for.
pub enum IppRoute {
    /// Nothing that is not known: this is the answer.
    Answer(Vec<u8>),
    /// How the job with this number fares.
    JobAttributes(Option<i32>),
    /// How all jobs of the printer fare.
    Jobs,
    /// To call off the job with this number.
    CancelJob(Option<i32>),
    /// To print the document of the request.
    PrintJob,
}

pub enum IppRouteView {
    Answer(Seq<u8>),
    JobAttributes(Option<i32>),
    Jobs,
    CancelJob(Option<i32>),
    PrintJob,
}

impl View for IppRoute {
    type V = IppRouteView;

    open spec fn view(&self) -> IppRouteView {
        match *self {
            IppRoute::Answer(bytes) => IppRouteView::Answer(bytes@),
            IppRoute::JobAttributes(id) => IppRouteView::JobAttributes(id),
            IppRoute::Jobs => IppRouteView::Jobs,
            IppRoute::CancelJob(id) => IppRouteView::CancelJob(id),
            IppRoute::PrintJob => IppRouteView::PrintJob,
        }
    }
}

/// What a request to a printer asks for; `remote` is the printer, if it is
/// known.
pub open spec fn printer_route(
    port: u16,
    remote: Option<RemotePrinterView>,
    request: IppRequestView,
    now_ms: TimestampMs,
) -> IppRouteView {
    match remote {
        None => IppRouteView::Answer(bare_response(request, IPP_NOT_FOUND)),
        Some(remote) => if request.operation == GET_PRINTER_ATTRIBUTES {
            IppRouteView::Answer(
                response_bytes(
                    request.version,
                    IPP_OK,
                    request.request_id,
                    printer_payload(port, remote, now_ms),
                ),
            )
        } else if request.operation == GET_JOB_ATTRIBUTES {
            IppRouteView::JobAttributes(request.integer_of("job-id"@))
        } else if request.operation == GET_JOBS {
            IppRouteView::Jobs
        } else if request.operation == CANCEL_JOB {
            IppRouteView::CancelJob(request.integer_of("job-id"@))
        } else if request.operation == VALIDATE_JOB {
            IppRouteView::Answer(bare_response(request, IPP_OK))
        } else if request.operation == PRINT_JOB {
            IppRouteView::PrintJob
        } else {
            IppRouteView::Answer(bare_response(request, IPP_OPERATION_NOT_SUPPORTED))
        },
    }
}

/// What a request to a printer asks for; `remote` is the printer, if it is
/// known.
pub fn route_printer_request(
    port: u16,
    remote: &Option<RemotePrinter>,
    request: &IppRequest,
    now_ms: TimestampMs,
) -> (r: IppRoute)
    ensures
        r@ == printer_route(port, opt(*remote), request@, now_ms),
{
    let remote = match remote {
        Some(remote) => remote,
        None => {
            return IppRoute::Answer(bare(request, IPP_NOT_FOUND));
        },
    };
    if request.operation == GET_PRINTER_ATTRIBUTES {
        IppRoute::Answer(printer_attributes_response(port, remote, request, now_ms))
    } else if request.operation == GET_JOB_ATTRIBUTES {
        IppRoute::JobAttributes(request.integer("job-id"))
    } else if request.operation == GET_JOBS {
        IppRoute::Jobs
    } else if request.operation == CANCEL_JOB {
        IppRoute::CancelJob(request.integer("job-id"))
    } else if request.operation == VALIDATE_JOB {
        IppRoute::Answer(bare(request, IPP_OK))
    } else if request.operation == PRINT_JOB {
        IppRoute::PrintJob
    } else {
        IppRoute::Answer(bare(request, IPP_OPERATION_NOT_SUPPORTED))
    }
}

/// What a request to the job with this number asks for.
pub open spec fn job_route(request: IppRequestView, job_id: u32) -> IppRouteView {
    if request.operation == GET_JOB_ATTRIBUTES {
        IppRouteView::JobAttributes(Some(signed(job_id as nat)))
    } else if request.operation == CANCEL_JOB {
        IppRouteView::CancelJob(Some(signed(job_id as nat)))
    } else {
        IppRouteView::Answer(bare_response(request, IPP_OPERATION_NOT_SUPPORTED))
    }
}

/// What a request to the job with this number asks for.
pub fn route_job_request(request: &IppRequest, job_id: u32) -> (r: IppRoute)
    ensures
        r@ == job_route(request@, job_id),
{
    if request.operation == GET_JOB_ATTRIBUTES {
        IppRoute::JobAttributes(Some(to_signed(job_id)))
    } else if request.operation == CANCEL_JOB {
        IppRoute::CancelJob(Some(to_signed(job_id)))
    } else {
        IppRoute::Answer(bare(request, IPP_OPERATION_NOT_SUPPORTED))
    }
}

/// A job that another device is to be asked about.
pub struct JobQuery {
    pub local_job_id: u32,
    pub remote: RemotePrinter,
    pub job_id: PrintJobId,
}

pub struct JobQueryView {
    pub local_job_id: u32,
    pub remote: RemotePrinterView,
    pub job_id: Seq<char>,
}

impl View for JobQuery {
    type V = JobQueryView;

    open spec fn view(&self) -> JobQueryView {
        JobQueryView {
            local_job_id: self.local_job_id,
            remote: self.remote@,
            job_id: self.job_id@,
        }
    }
}

/// The job that a request means, or the outcome if there is none.
pub open spec fn meant_job(
    jobs: Seq<JobEntryView>,
    remotes: Seq<RemotePrinterView>,
    local_job_id: Option<i32>,
) -> core::result::Result<JobQueryView, u16> {
    match local_job_id {
        Some(id) => if id < 0 {
            Err(IPP_BAD_REQUEST)
        } else {
            match resolved(jobs, id as u32, remotes) {
                None => Err(IPP_NOT_FOUND),
                Some((binding, remote)) => if valid_id(binding.remote_job_id) {
                    Ok(
                        JobQueryView {
                            local_job_id: id as u32,
                            remote,
                            job_id: binding.remote_job_id,
                        },
                    )
                } else {
                    Err(IPP_NOT_FOUND)
                },
            }
        },
        None => Err(IPP_BAD_REQUEST),
    }
}

/// The job that a request means, or the answer if there is none.
pub fn find_job(
    bridge: &IppBridge,
    remotes: &Vec<RemotePrinter>,
    request: &IppRequest,
    local_job_id: Option<i32>,
) -> (r: core::result::Result<JobQuery, Vec<u8>>)
    requires
        bridge.wf(),
    ensures
        match meant_job(bridge@.jobs, views(remotes@), local_job_id) {
            Ok(query) => r matches Ok(q) && q@ == query,
            Err(status) => r matches Err(answer) && answer@ == bare_response(request@, status),
        },
{
    let local_job_id: u32 = match local_job_id {
        Some(id) => {
            if id < 0 {
                return Err(bare(request, IPP_BAD_REQUEST));
            }
            id as u32
        },
        None => {
            return Err(bare(request, IPP_BAD_REQUEST));
        },
    };
    let (binding, remote) = match bridge.resolve_binding(local_job_id, remotes) {
        Some(found) => found,
        None => {
            return Err(bare(request, IPP_NOT_FOUND));
        },
    };
    match PrintJobId::parse(binding.remote_job_id.as_str()) {
        Ok(job_id) => Ok(JobQuery { local_job_id, remote, job_id }),
        Err(_) => Err(bare(request, IPP_NOT_FOUND)),
    }
}

/// How the protocol numbers the states of a job.
pub open spec fn protocol_state(state: PrintJobState) -> i32 {
    match state {
        PrintJobState::Printing => 5,
        PrintJobState::Held | PrintJobState::Ambiguous => 6,
        PrintJobState::Cancelled => 7,
        PrintJobState::Failed => 8,
        PrintJobState::Completed => 9,
        _ => 3,
    }
}

/// How the protocol numbers the states of a job.
pub fn ipp_job_state(state: PrintJobState) -> (r: i32)
    ensures
        r == protocol_state(state),
{
    match state {
        PrintJobState::Offered
        | PrintJobState::Receiving
        | PrintJobState::Validating
        | PrintJobState::Ready
        | PrintJobState::Submitting
        | PrintJobState::Queued => 3,
        PrintJobState::Printing => 5,
        PrintJobState::Held | PrintJobState::Ambiguous => 6,
        PrintJobState::Cancelled => 7,
        PrintJobState::Failed => 8,
        PrintJobState::Completed => 9,
    }
}

/// What is said of a job.
pub open spec fn job_bytes(local_job_id: u32, job: RemotePrintJobView) -> Seq<u8> {
    seq![0x02u8] + number_bytes(0x21, "job-id"@, signed(local_job_id as nat)) + number_bytes(
        0x23,
        "job-state"@,
        protocol_state(job.state),
    ) + text_bytes(
        0x44,
        "job-state-reasons"@,
        if job.failure_message is Some {
            "job-completed-with-errors"@
        } else {
            "none"@
        },
    )
}

/// What is said of a job.
pub fn job_attributes(local_job_id: u32, job: &RemotePrintJob) -> (r: Vec<u8>)
    ensures
        r@ == job_bytes(local_job_id, job@),
{
    let mut payload: Vec<u8> = Vec::new();
    payload.push(0x02);
    assert(payload@ =~= seq![0x02u8]);
    integer_attribute(&mut payload, "job-id", to_signed(local_job_id));
    enum_attribute(&mut payload, "job-state", ipp_job_state(job.state));
    text_attribute(
        &mut payload,
        0x44,
        "job-state-reasons",
        if job.failure_message.is_some() {
            "job-completed-with-errors"
        } else {
            "none"
        },
    );
    payload
}

/// The answer to a question about a job, given what its device has said.
pub open spec fn job_answer(
    request: IppRequestView,
    local_job_id: u32,
    job: core::result::Result<RemotePrintJobView, PrintErrorView>,
) -> Seq<u8> {
    match job {
        Ok(job) => response_bytes(
            request.version,
            IPP_OK,
            request.request_id,
            job_bytes(local_job_id, job),
        ),
        Err(_) => bare_response(request, IPP_INTERNAL_ERROR),
    }
}

/// The answer to a question about a job, given what its device has said.
pub fn job_attributes_response(
    request: &IppRequest,
    local_job_id: u32,
    job: &PrintResult<RemotePrintJob>,
) -> (r: Vec<u8>)
    ensures
        r@ == job_answer(request@, local_job_id, outcome(*job)),
{
    match job {
        Ok(job) => ipp_response(
            &request.version,
            IPP_OK,
            request.request_id,
            job_attributes(local_job_id, job),
        ),
        Err(_) => bare(request, IPP_INTERNAL_ERROR),
    }
}

/// The answer to a cancellation, given what the job's device has said.
pub open spec fn cancel_answer(
    request: IppRequestView,
    job: core::result::Result<RemotePrintJobView, PrintErrorView>,
) -> Seq<u8> {
    bare_response(
        request,
        if job is Ok {
            IPP_OK
        } else {
            IPP_INTERNAL_ERROR
        },
    )
}

/// The answer to a cancellation, given what the job's device has said.
pub fn cancel_job_response(request: &IppRequest, job: &PrintResult<RemotePrintJob>) -> (r: Vec<u8>)
    ensures
        r@ == cancel_answer(request@, outcome(*job)),
{
    match job {
        Ok(_) => bare(request, IPP_OK),
        Err(_) => bare(request, IPP_INTERNAL_ERROR),
    }
}

/// How many jobs one answer tells of at most.
pub const MAX_LISTED_JOBS: usize = 64;

/// The jobs that one answer tells of at most: those with the highest numbers,
/// the highest first.
pub open spec fn recent_jobs(jobs: Seq<JobEntryView>) -> Seq<JobEntryView> {
    if jobs.len() <= MAX_LISTED_JOBS {
        jobs.reverse()
    } else {
        jobs.reverse().take(MAX_LISTED_JOBS as int)
    }
}

/// Where the answer to a question about all jobs of a printer stands.
pub enum GetJobsFlow {
    /// The device is asked about a job; `pending` comes next.
    Asking { pending: Vec<JobEntry>, local_job_id: u32, job_id: PrintJobId, payload: Vec<u8> },
    /// What the device said is recorded.
    Recording { pending: Vec<JobEntry>, local_job_id: u32, job: RemotePrintJob, payload: Vec<u8> },
    Done(Vec<u8>),
}

pub enum GetJobsFlowView {
    Asking {
        pending: Seq<JobEntryView>,
        local_job_id: u32,
        job_id: Seq<char>,
        payload: Seq<u8>,
    },
    Recording {
        pending: Seq<JobEntryView>,
        local_job_id: u32,
        job: RemotePrintJobView,
        payload: Seq<u8>,
    },
    Done(Seq<u8>),
}

impl View for GetJobsFlow {
    type V = GetJobsFlowView;

    open spec fn view(&self) -> GetJobsFlowView {
        match *self {
            GetJobsFlow::Asking { pending, local_job_id, job_id, payload } => {
                GetJobsFlowView::Asking {
                    pending: views(pending@),
                    local_job_id,
                    job_id: job_id@,
                    payload: payload@,
                }
            },
            GetJobsFlow::Recording { pending, local_job_id, job, payload } => {
                GetJobsFlowView::Recording {
                    pending: views(pending@),
                    local_job_id,
                    job: job@,
                    payload: payload@,
                }
            },
            GetJobsFlow::Done(payload) => GetJobsFlowView::Done(payload@),
        }
    }
}

/// Whether a job went to this printer and can be asked about.
pub open spec fn went_to(entry: JobEntryView, remote: RemotePrinterView) -> bool {
    &&& entry.binding.remote_device_id == remote.printer.source_device_id
    &&& entry.binding.printer_share_id == remote.printer.share_id
    &&& valid_id(entry.binding.remote_job_id)
}

impl GetJobsFlowView {
    /// The flow that goes on with the jobs in `pending`.
    pub open spec fn proceed(
        remote: RemotePrinterView,
        pending: Seq<JobEntryView>,
        payload: Seq<u8>,
    ) -> Self
        decreases pending.len(),
    {
        if pending.len() == 0 {
            GetJobsFlowView::Done(payload)
        } else if went_to(pending[0], remote) {
            GetJobsFlowView::Asking {
                pending: pending.drop_first(),
                local_job_id: pending[0].id,
                job_id: pending[0].binding.remote_job_id,
                payload,
            }
        } else {
            GetJobsFlowView::proceed(remote, pending.drop_first(), payload)
        }
    }

    /// The flow after the device has said something of a job, or nothing.
    pub open spec fn after_job(
        self,
        remote: RemotePrinterView,
        job: Option<RemotePrintJobView>,
    ) -> Self {
        match self {
            GetJobsFlowView::Asking { pending, local_job_id, job_id, payload } => match job {
                Some(job) => GetJobsFlowView::Recording { pending, local_job_id, job, payload },
                None => GetJobsFlowView::proceed(remote, pending, payload),
            },
            _ => self,
        }
    }

    /// The flow after what was said of a job has been recorded.
    pub open spec fn after_recording(self, remote: RemotePrinterView) -> Self {
        match self {
            GetJobsFlowView::Recording { pending, local_job_id, job, payload } => {
                GetJobsFlowView::proceed(
                    remote,
                    pending,
                    payload + job_bytes(local_job_id, job),
                )
            },
            _ => self,
        }
    }
}

fn proceed_jobs(remote: &RemotePrinter, mut pending: Vec<JobEntry>, payload: Vec<u8>) -> (r:
    GetJobsFlow)
    ensures
        r@ == GetJobsFlowView::proceed(remote@, views(pending@), payload@),
    decreases pending@.len(),
{
    if pending.len() == 0 {
        return GetJobsFlow::Done(payload);
    }
    let ghost before = pending@;
    let entry = pending.remove(0);
    assert(views(pending@) =~= views(before).drop_first());
    assert(views(before)[0] == entry@);
    if !same(
        entry.binding.remote_device_id.as_str(),
        remote.printer.source_device_id.as_str(),
    ) || !same(
        entry.binding.printer_share_id.as_str(),
        remote.printer.share_id.as_str(),
    ) {
        return proceed_jobs(remote, pending, payload);
    }
    match PrintJobId::parse(entry.binding.remote_job_id.as_str()) {
        Ok(job_id) => GetJobsFlow::Asking { pending, local_job_id: entry.id, job_id, payload },
        Err(_) => proceed_jobs(remote, pending, payload),
    }
}

impl GetJobsFlow {
    /// Starts to ask about the jobs of a printer.
    pub fn start(bridge: &IppBridge, remote: &RemotePrinter) -> (r: Self)
        ensures
            r@ == GetJobsFlowView::proceed(
                remote@,
                recent_jobs(bridge@.jobs),
                operation_bytes(),
            ),
    {
        let jobs = bridge.bindings();
        let ghost all = views(jobs@);
        let mut pending: Vec<JobEntry> = Vec::new();
        let mut i: usize = jobs.len();
        let stop: usize = if jobs.len() > MAX_LISTED_JOBS {
            jobs.len() - MAX_LISTED_JOBS
        } else {
            0
        };
        while i > stop
            invariant
                stop <= i <= jobs@.len(),
                all == views(jobs@),
                pending@.len() == all.len() - i,
                forall|j: int|
                    0 <= j < pending@.len() ==> (#[trigger] pending@[j])@ == all.reverse()[j],
            decreases i,
        {
            i -= 1;
            pending.push(jobs[i].clone());
        }
        assert(views(pending@) =~= recent_jobs(all));
        proceed_jobs(remote, pending, operation_attributes())
    }

    /// Takes what the device says of a job, if it says something.
    pub fn take_job(self, remote: &RemotePrinter, job: Option<RemotePrintJob>) -> (r: Self)
        ensures
            r@ == self@.after_job(remote@, opt(job)),
    {
        match self {
            GetJobsFlow::Asking { pending, local_job_id, job_id: _, payload } => match job {
                Some(job) => GetJobsFlow::Recording { pending, local_job_id, job, payload },
                None => proceed_jobs(remote, pending, payload),
            },
            other => other,
        }
    }

    /// Goes on once what was said of a job has been recorded.
    pub fn recorded(self, remote: &RemotePrinter) -> (r: Self)
        ensures
            r@ == self@.after_recording(remote@),
    {
        match self {
            GetJobsFlow::Recording { pending, local_job_id, job, payload: start } => {
                let mut payload = start;
                put_bytes(&mut payload, job_attributes(local_job_id, &job).as_slice());
                proceed_jobs(remote, pending, payload)
            },
            other => other,
        }
    }
}

/// The answer to a question about all jobs of a printer.
pub fn get_jobs_response(request: &IppRequest, payload: Vec<u8>) -> (r: Vec<u8>)
    ensures
        r@ == response_bytes(request@.version, IPP_OK, request@.request_id, payload@),
{
    ipp_response(&request.version, IPP_OK, request.request_id, payload)
}

/// A document that is to be printed.
pub struct PrintJobPlan {
    pub options: PrintOptions,
    pub document_name: String,
}

pub struct PrintJobPlanView {
    pub options: PrintOptionsView,
    pub document_name: Seq<char>,
}

impl View for PrintJobPlan {
    type V = PrintJobPlanView;

    open spec fn view(&self) -> PrintJobPlanView {
        PrintJobPlanView { options: self.options@, document_name: self.document_name@ }
    }
}

/// How many bytes tell whether a document is a PDF document.
pub const PDF_SIGNATURE_BYTES: usize = 5;

/// What a PDF document begins with.
pub open spec fn pdf_signature() -> Seq<u8> {
    seq![0x25u8, 0x50u8, 0x44u8, 0x46u8, 0x2du8]
}

/// Whether a document that begins with `start` is a PDF document.
pub open spec fn begins_pdf(start: Seq<u8>) -> bool {
    start.len() >= PDF_SIGNATURE_BYTES && start.take(PDF_SIGNATURE_BYTES as int)
        == pdf_signature()
}

/// What to print of a request whose document begins with `start`, or the
/// answer if there is nothing to print.
pub open spec fn print_plan(request: IppRequestView, start: Seq<u8>) -> core::result::Result<
    PrintJobPlanView,
    Seq<u8>,
> {
    if request.document_size == 0 || !begins_pdf(start) {
        Err(bare_response(request, IPP_BAD_REQUEST))
    } else {
        Ok(
            PrintJobPlanView {
                options: requested_options(request),
                document_name: requested_name(request),
            },
        )
    }
}

/// Whether a document that begins with `start` is a PDF document.
pub fn is_pdf(start: &[u8]) -> (r: bool)
    ensures
        r == begins_pdf(start@),
{
    let signature: [u8; 5] = [0x25, 0x50, 0x44, 0x46, 0x2d];
    assert(signature@ =~= pdf_signature());
    begins_with(start, &signature)
}

/// How to print the document of a request, or the answer if it has none that
/// can be printed; `start` is how the document begins, as far as it could be
/// read.
pub fn plan_print_job(request: &IppRequest, start: &[u8]) -> (r: core::result::Result<
    PrintJobPlan,
    Vec<u8>,
>)
    ensures
        match print_plan(request@, start@) {
            Ok(plan) => r matches Ok(p) && p@ == plan,
            Err(answer) => r matches Err(a) && a@ == answer,
        },
{
    if request.document_size == 0 || !is_pdf(start) {
        return Err(bare(request, IPP_BAD_REQUEST));
    }
    Ok(
        PrintJobPlan {
            options: options_from_request(request),
            document_name: document_name(request),
        },
    )
}

/// Where a job can be asked about.
pub open spec fn job_uri(port: u16, local_job_id: u32) -> Seq<char> {
    "ipp://127.0.0.1:"@ + decimal_text(port as nat) + "/jobs/"@ + decimal_text(
        local_job_id as nat,
    )
}

/// The answer to a document that was accepted.
pub open spec fn accepted_payload(port: u16, local_job_id: u32) -> Seq<u8> {
    operation_bytes() + seq![0x02u8] + text_bytes(0x45, "job-uri"@, job_uri(port, local_job_id))
        + number_bytes(0x21, "job-id"@, signed(local_job_id as nat)) + number_bytes(
        0x23,
        "job-state"@,
        5,
    ) + text_bytes(0x44, "job-state-reasons"@, "none"@)
}

fn accepted(port: u16, local_job_id: u32) -> (r: Vec<u8>)
    ensures
        r@ == accepted_payload(port, local_job_id),
{
    let mut uri = "ipp://127.0.0.1:".to_string();
    uri.append(decimal(port as u64).as_str());
    uri.append("/jobs/");
    uri.append(decimal(local_job_id as u64).as_str());
    let mut payload = operation_attributes();
    put_byte(&mut payload, 0x02);
    text_attribute(&mut payload, 0x45, "job-uri", uri.as_str());
    integer_attribute(&mut payload, "job-id", to_signed(local_job_id));
    enum_attribute(&mut payload, "job-state", 5);
    text_attribute(&mut payload, 0x44, "job-state-reasons", "none");
    payload
}

/// The answer to a document, given what became of it, and the bridge then: a
/// job that another device has taken gets a number and is remembered.
pub open spec fn submission_answer(
    bridge: IppBridgeView,
    remote: RemotePrinterView,
    request: IppRequestView,
    document_name: Seq<char>,
    submitted: core::result::Result<Seq<char>, PrintErrorView>,
    now_ms: TimestampMs,
) -> (Seq<u8>, IppBridgeView) {
    match submitted {
        Ok(job_id) => (
            response_bytes(
                request.version,
                IPP_OK,
                request.request_id,
                accepted_payload(bridge.port, bridge.next_job_id),
            ),
            IppBridgeView {
                port: bridge.port,
                next_job_id: wrapped_next(bridge.next_job_id),
                jobs: remembered(
                    with_job(
                        bridge.jobs,
                        bridge.next_job_id,
                        submitted_binding(remote, job_id, document_name, now_ms),
                    ),
                ),
            },
        ),
        Err(_) => (bare_response(request, IPP_INTERNAL_ERROR), bridge),
    }
}

/// The answer to a document, given what became of it: a job that another
/// device has taken gets a number and is remembered.
pub fn print_job_response(
    bridge: &mut IppBridge,
    remote: &RemotePrinter,
    request: &IppRequest,
    document_name: &str,
    submitted: &PrintResult<PrintJobId>,
    now_ms: TimestampMs,
) -> (r: Vec<u8>)
    requires
        old(bridge).wf(),
    ensures
        final(bridge).wf(),
        (r@, final(bridge)@) == submission_answer(
            old(bridge)@,
            remote@,
            request@,
            document_name@,
            outcome(*submitted),
            now_ms,
        ),
{
    match submitted {
        Ok(job_id) => {
            let local_job_id: u32 = bridge.take_job_id();
            bridge.record_job(local_job_id, remote, job_id.as_str(), document_name, now_ms);
            ipp_response(
                &request.version,
                IPP_OK,
                request.request_id,
                accepted(bridge.port(), local_job_id),
            )
        },
        Err(_) => bare(request, IPP_INTERNAL_ERROR),
    }
}

/// However a request is cut into pieces, the same is taken from it: its
/// length, and the beginning that can hold attributes.
pub proof fn law_pieces_make_no_difference(intake: IppIntakeView, bytes: Seq<u8>, data: Seq<u8>)
    requires
        intake.holds(bytes),
        intake.has_room(data.len() as int),
    ensures
        intake.with_data(data).holds(bytes + data),
{
    let k = MAX_IPP_ATTRIBUTE_BYTES as int;
    assert(beginning(beginning(bytes) + data) =~= beginning(bytes + data));
}

/// A job that was just submitted can be asked about under its number, as long
/// as its printer is known; no other job with a higher number is forgotten.
pub proof fn law_submitted_job_is_known(
    jobs: Seq<JobEntryView>,
    id: u32,
    remote: RemotePrinterView,
    job_id: Seq<char>,
    document_name: Seq<char>,
    now_ms: TimestampMs,
)
    requires
        by_number(jobs),
        forall|i: int| 0 <= i < jobs.len() ==> (#[trigger] jobs[i]).id < id,
    ensures
        job_numbered(
            remembered(
                with_job(jobs, id, submitted_binding(remote, job_id, document_name, now_ms)),
            ),
            id,
        ) == Some(submitted_binding(remote, job_id, document_name, now_ms)),
{
    let binding = submitted_binding(remote, job_id, document_name, now_ms);
    let entry = JobEntryView { id, binding };
    let low = |e: JobEntryView| e.id < id;
    let high = |e: JobEntryView| e.id > id;
    lemma_filter_keeps_all(jobs, low);
    lemma_filter_drops_all(jobs, high);
    let all = with_job(jobs, id, binding);
    assert(all =~= jobs.push(entry));
    let kept = remembered(all);
    let from = all.len() - kept.len();
    assert(kept =~= all.skip(from));
    assert(kept[kept.len() - 1] == entry);
    assert forall|a: int, b: int| 0 <= a < b < kept.len() implies (#[trigger] kept[a]).id < (
    #[trigger] kept[b]).id by {
        if b + from < jobs.len() {
            assert(jobs[a + from].id < jobs[b + from].id);
        } else {
            assert(jobs[a + from].id < id);
        }
    }
    lemma_numbered(kept, kept.len() - 1);
}

} // verus!
