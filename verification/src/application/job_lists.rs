//! Operations on many jobs: the list of recent jobs, and the reconciliation
//! after a restart.
use vstd::prelude::*;
use vstd::string::*;

use crate::application::job_flow::{
    JobAction, JobActionView, JobFlow, JobFlowView, JobReply, JobReplyView,
};
use crate::application::job_service::{inspectable, report};
use crate::application::ports::NativeJobStatus;
use crate::domain::id::NativeJobId;
use crate::domain::job::{PrintJob, PrintJobState, PrintJobView};
use crate::domain::TimestampMs;
use crate::error::{listed, outcome, plain, PrintErrorView, PrintResult};
use crate::model::views;
use crate::unique::{is_random_text, lemma_random_text_exists};

verus! {

/// What the reconciliation asks for. It never hands a job to the spooler.
pub enum ReconcileAction<'a> {
    ListActive,
    QueryNative(&'a NativeJobId),
    /// Store the job and announce its state.
    Save(&'a PrintJob),
    Finished,
}

pub enum ReconcileActionView {
    ListActive,
    QueryNative(Seq<char>),
    Save(PrintJobView),
    Finished,
}

impl<'a> View for ReconcileAction<'a> {
    type V = ReconcileActionView;

    open spec fn view(&self) -> ReconcileActionView {
        match *self {
            ReconcileAction::ListActive => ReconcileActionView::ListActive,
            ReconcileAction::QueryNative(id) => ReconcileActionView::QueryNative(id@),
            ReconcileAction::Save(job) => ReconcileActionView::Save(job@),
            ReconcileAction::Finished => ReconcileActionView::Finished,
        }
    }
}

/// An answer to a [`ReconcileAction`].
pub enum ReconcileReply {
    Active(PrintResult<Vec<PrintJob>>),
    Status(PrintResult<NativeJobStatus>),
    Saved(PrintResult<()>),
}

pub enum ReconcileReplyView {
    Active(core::result::Result<Seq<PrintJobView>, PrintErrorView>),
    Status(core::result::Result<NativeJobStatus, PrintErrorView>),
    Saved(core::result::Result<(), PrintErrorView>),
}

impl View for ReconcileReply {
    type V = ReconcileReplyView;

    open spec fn view(&self) -> ReconcileReplyView {
        match *self {
            ReconcileReply::Active(r) => ReconcileReplyView::Active(listed(r)),
            ReconcileReply::Status(r) => ReconcileReplyView::Status(plain(r)),
            ReconcileReply::Saved(r) => ReconcileReplyView::Saved(outcome(r)),
        }
    }
}

/// Where the reconciliation stands.
pub enum ReconcileFlow {
    Listing,
    /// The spooler is asked about `job`; `pending` comes next, `done` is past.
    Inspecting { pending: Vec<PrintJob>, job: PrintJob, native: NativeJobId, done: Vec<PrintJob> },
    /// `job` is stored.
    Saving { pending: Vec<PrintJob>, job: PrintJob, done: Vec<PrintJob> },
    Done(PrintResult<Vec<PrintJob>>),
}

pub enum ReconcileFlowView {
    Listing,
    Inspecting {
        pending: Seq<PrintJobView>,
        job: PrintJobView,
        native: Seq<char>,
        done: Seq<PrintJobView>,
    },
    Saving { pending: Seq<PrintJobView>, job: PrintJobView, done: Seq<PrintJobView> },
    Done(core::result::Result<Seq<PrintJobView>, PrintErrorView>),
}

impl View for ReconcileFlow {
    type V = ReconcileFlowView;

    open spec fn view(&self) -> ReconcileFlowView {
        match *self {
            ReconcileFlow::Listing => ReconcileFlowView::Listing,
            ReconcileFlow::Inspecting { pending, job, native, done } => {
                ReconcileFlowView::Inspecting {
                    pending: views(pending@),
                    job: job@,
                    native: native@,
                    done: views(done@),
                }
            },
            ReconcileFlow::Saving { pending, job, done } => ReconcileFlowView::Saving {
                pending: views(pending@),
                job: job@,
                done: views(done@),
            },
            ReconcileFlow::Done(result) => ReconcileFlowView::Done(listed(result)),
        }
    }
}

/// What becomes of an unfinished job after a restart.
pub enum ReconcileStep {
    /// It has ended: nothing is done.
    Skip,
    /// The spooler knows it under this name.
    Inspect(Seq<char>),
    /// It is stored in this state, or the reconciliation fails.
    Store(core::result::Result<PrintJobView, PrintErrorView>),
}

/// What becomes of `job` after a restart.
pub open spec fn reconcile_step(job: PrintJobView, now_ms: TimestampMs) -> ReconcileStep {
    match job.state {
        PrintJobState::Receiving | PrintJobState::Validating => ReconcileStep::Store(
            job.moved_with(
                PrintJobState::Failed,
                Some("ArcRelay restarted before the document was ready"@),
                now_ms,
            ),
        ),
        PrintJobState::Submitting => ReconcileStep::Store(
            job.after_ambiguous(
                None,
                "ArcRelay restarted while submitting; inspect the system queue before retrying"@,
                now_ms,
            ),
        ),
        PrintJobState::Queued
        | PrintJobState::Printing
        | PrintJobState::Held
        | PrintJobState::Ambiguous => match job.native_job_id {
            Some(native) => ReconcileStep::Inspect(native),
            None => if job.state == PrintJobState::Ambiguous {
                ReconcileStep::Store(Ok(job))
            } else {
                ReconcileStep::Store(
                    job.moved_with(
                        PrintJobState::Held,
                        Some("native print job id is unavailable"@),
                        now_ms,
                    ),
                )
            },
        },
        PrintJobState::Offered | PrintJobState::Ready => ReconcileStep::Store(Ok(job)),
        PrintJobState::Completed | PrintJobState::Cancelled | PrintJobState::Failed => {
            ReconcileStep::Skip
        },
    }
}

impl ReconcileFlowView {
    /// The flow that goes on with the jobs in `pending`.
    pub open spec fn proceed(
        pending: Seq<PrintJobView>,
        done: Seq<PrintJobView>,
        now_ms: TimestampMs,
    ) -> Self
        decreases pending.len(),
    {
        if pending.len() == 0 {
            ReconcileFlowView::Done(Ok(done))
        } else {
            let job = pending[0];
            let rest = pending.drop_first();
            match reconcile_step(job, now_ms) {
                ReconcileStep::Skip => ReconcileFlowView::proceed(rest, done, now_ms),
                ReconcileStep::Inspect(native) => ReconcileFlowView::Inspecting {
                    pending: rest,
                    job,
                    native,
                    done,
                },
                ReconcileStep::Store(Ok(job)) => ReconcileFlowView::Saving {
                    pending: rest,
                    job,
                    done,
                },
                ReconcileStep::Store(Err(error)) => ReconcileFlowView::Done(Err(error)),
            }
        }
    }

    /// What the flow asks for.
    pub open spec fn action(self) -> ReconcileActionView {
        match self {
            ReconcileFlowView::Listing => ReconcileActionView::ListActive,
            ReconcileFlowView::Inspecting { pending, job, native, done } => {
                ReconcileActionView::QueryNative(native)
            },
            ReconcileFlowView::Saving { pending, job, done } => ReconcileActionView::Save(job),
            ReconcileFlowView::Done(_) => ReconcileActionView::Finished,
        }
    }

    /// The flow after `reply`.
    pub open spec fn resumed(self, reply: ReconcileReplyView, now_ms: TimestampMs) -> Self {
        match (self, reply) {
            (ReconcileFlowView::Listing, ReconcileReplyView::Active(Ok(jobs))) => {
                ReconcileFlowView::proceed(jobs, seq![], now_ms)
            },
            (ReconcileFlowView::Listing, ReconcileReplyView::Active(Err(error))) => {
                ReconcileFlowView::Done(Err(error))
            },
            (
                ReconcileFlowView::Inspecting { pending, job, native, done },
                ReconcileReplyView::Status(Ok(status)),
            ) => match job.after_report(
                status,
                native,
                job.state == PrintJobState::Ambiguous,
                now_ms,
            ) {
                Ok(job) => ReconcileFlowView::Saving { pending, job, done },
                Err(error) => ReconcileFlowView::Done(Err(error)),
            },
            (
                ReconcileFlowView::Inspecting { pending, job, native, done },
                ReconcileReplyView::Status(Err(error)),
            ) => ReconcileFlowView::Done(Err(error)),
            (
                ReconcileFlowView::Saving { pending, job, done },
                ReconcileReplyView::Saved(Ok(_)),
            ) => ReconcileFlowView::proceed(pending, done.push(job), now_ms),
            (
                ReconcileFlowView::Saving { pending, job, done },
                ReconcileReplyView::Saved(Err(error)),
            ) => ReconcileFlowView::Done(Err(error)),
            _ => self,
        }
    }
}

fn store(
    pending: Vec<PrintJob>,
    job: PrintJob,
    done: Vec<PrintJob>,
    updated: PrintResult<()>,
) -> (r: ReconcileFlow)
    ensures
        r@ == match updated {
            Ok(_) => ReconcileFlowView::Saving {
                pending: views(pending@),
                job: job@,
                done: views(done@),
            },
            Err(error) => ReconcileFlowView::Done(Err(error@)),
        },
{
    match updated {
        Ok(_) => ReconcileFlow::Saving { pending, job, done },
        Err(error) => ReconcileFlow::Done(Err(error)),
    }
}

fn proceed(mut pending: Vec<PrintJob>, done: Vec<PrintJob>, now_ms: TimestampMs) -> (r: ReconcileFlow)
    ensures
        r@ == ReconcileFlowView::proceed(views(pending@), views(done@), now_ms),
    decreases pending@.len(),
{
    if pending.len() == 0 {
        return ReconcileFlow::Done(Ok(done));
    }
    let ghost before = pending@;
    let mut job = pending.remove(0);
    assert(views(pending@) =~= views(before).drop_first());
    match job.state {
        PrintJobState::Receiving | PrintJobState::Validating => {
            let updated = job.fail(
                "ArcRelay restarted before the document was ready".to_string(),
                now_ms,
            );
            store(pending, job, done, updated)
        },
        PrintJobState::Submitting => {
            let updated = job.submission_ambiguous(
                None,
                "ArcRelay restarted while submitting; inspect the system queue before retrying".to_string(),
                now_ms,
            );
            store(pending, job, done, updated)
        },
        PrintJobState::Queued
        | PrintJobState::Printing
        | PrintJobState::Held
        | PrintJobState::Ambiguous => {
            let native = match &job.native_job_id {
                Some(native) => Some(native.clone()),
                None => None,
            };
            match native {
                Some(native) => ReconcileFlow::Inspecting { pending, job, native, done },
                None => {
                    if job.state == PrintJobState::Ambiguous {
                        return ReconcileFlow::Saving { pending, job, done };
                    }
                    let updated = job.hold(
                        "native print job id is unavailable".to_string(),
                        now_ms,
                    );
                    store(pending, job, done, updated)
                },
            }
        },
        PrintJobState::Offered | PrintJobState::Ready => ReconcileFlow::Saving {
            pending,
            job,
            done,
        },
        PrintJobState::Completed | PrintJobState::Cancelled | PrintJobState::Failed => proceed(
            pending,
            done,
            now_ms,
        ),
    }
}

impl ReconcileFlow {
    /// What the flow asks for.
    pub fn action(&self) -> (r: ReconcileAction<'_>)
        ensures
            r@ == self@.action(),
    {
        match self {
            ReconcileFlow::Listing => ReconcileAction::ListActive,
            ReconcileFlow::Inspecting { pending: _, job: _, native, done: _ } => {
                ReconcileAction::QueryNative(native)
            },
            ReconcileFlow::Saving { pending: _, job, done: _ } => ReconcileAction::Save(job),
            ReconcileFlow::Done(_) => ReconcileAction::Finished,
        }
    }

    /// Takes an answer and moves on.
    pub fn resume(self, reply: ReconcileReply, now_ms: TimestampMs) -> (r: Self)
        ensures
            r@ == self@.resumed(reply@, now_ms),
    {
        match (self, reply) {
            (ReconcileFlow::Listing, ReconcileReply::Active(Ok(jobs))) => {
                let done: Vec<PrintJob> = Vec::new();
                assert(views(done@) =~= seq![]);
                proceed(jobs, done, now_ms)
            },
            (ReconcileFlow::Listing, ReconcileReply::Active(Err(error))) => ReconcileFlow::Done(
                Err(error),
            ),
            (
                ReconcileFlow::Inspecting { pending, job: known, native, done },
                ReconcileReply::Status(Ok(status)),
            ) => {
                let mut job = known;
                let requeues = job.state == PrintJobState::Ambiguous;
                let updated = report(&mut job, status, native, requeues, now_ms);
                store(pending, job, done, updated)
            },
            (
                ReconcileFlow::Inspecting { pending: _, job: _, native: _, done: _ },
                ReconcileReply::Status(Err(error)),
            ) => ReconcileFlow::Done(Err(error)),
            (
                ReconcileFlow::Saving { pending, job, done: past },
                ReconcileReply::Saved(Ok(_)),
            ) => {
                let mut done = past;
                let ghost before = views(done@);
                let ghost stored = job@;
                done.push(job);
                assert(views(done@) =~= before.push(stored));
                proceed(pending, done, now_ms)
            },
            (
                ReconcileFlow::Saving { pending: _, job: _, done: _ },
                ReconcileReply::Saved(Err(error)),
            ) => ReconcileFlow::Done(Err(error)),
            (other, _) => other,
        }
    }
}

/// Reconciling never resubmits: a job that is stored is not being submitted,
/// is ready only if it was ready before, and is otherwise the same job.
pub proof fn law_reconcile_never_resubmits(job: PrintJobView, now_ms: TimestampMs)
    ensures
        reconcile_step(job, now_ms) matches ReconcileStep::Store(stored) ==> stored matches Ok(
            after,
        ) && after.same_identity(job) && after.state != PrintJobState::Submitting && (after.state
            == PrintJobState::Ready ==> after == job),
{
}

/// Every unfinished job is reconciled: when the spooler answers and nothing
/// fails, the outcome lists each job that had not ended, in order.
pub proof fn law_reconcile_covers_all(
    pending: Seq<PrintJobView>,
    done: Seq<PrintJobView>,
    now_ms: TimestampMs,
)
    ensures
        match ReconcileFlowView::proceed(pending, done, now_ms) {
            ReconcileFlowView::Listing => false,
            ReconcileFlowView::Done(result) => result == Ok::<Seq<PrintJobView>, PrintErrorView>(
                done,
            ) && forall|i: int|
                0 <= i < pending.len() ==> (#[trigger] pending[i]).state.is_terminal(),
            ReconcileFlowView::Inspecting { pending: rest, job, native, done: past } => {
                &&& past == done
                &&& rest.len() < pending.len()
                &&& rest == pending.skip(pending.len() - rest.len())
                &&& job == pending[pending.len() - rest.len() - 1]
                &&& job.inspectable() && job.native_job_id == Some(native)
                &&& forall|i: int|
                    0 <= i < pending.len() - rest.len() - 1 ==> (
                    #[trigger] pending[i]).state.is_terminal()
            },
            ReconcileFlowView::Saving { pending: rest, job, done: past } => {
                &&& past == done
                &&& rest.len() < pending.len()
                &&& rest == pending.skip(pending.len() - rest.len())
                &&& job.same_identity(pending[pending.len() - rest.len() - 1])
                &&& forall|i: int|
                    0 <= i < pending.len() - rest.len() - 1 ==> (
                    #[trigger] pending[i]).state.is_terminal()
            },
        },
    decreases pending.len(),
{
    if pending.len() > 0 {
        let job = pending[0];
        let rest = pending.drop_first();
        law_reconcile_never_resubmits(job, now_ms);
        assert(rest =~= pending.skip(1));
        if reconcile_step(job, now_ms) is Skip {
            law_reconcile_covers_all(rest, done, now_ms);
            assert forall|n: int| 0 <= n <= rest.len() implies #[trigger] rest.skip(n)
                == pending.skip(n + 1) by {
                assert(rest.skip(n) =~= pending.skip(n + 1));
            }
            assert forall|i: int| 0 < i < pending.len() implies #[trigger] pending[i] == rest[i
                - 1] by {}
            assert(job.state.is_terminal());
        }
    }
}

/// What the list of recent jobs asks for.
pub enum RecentAction<'a> {
    ListRecent(usize),
    /// A question of the refresh of one job.
    Refresh(JobAction<'a>),
    Finished,
}

pub enum RecentActionView {
    ListRecent(usize),
    Refresh(JobActionView),
    Finished,
}

impl<'a> View for RecentAction<'a> {
    type V = RecentActionView;

    open spec fn view(&self) -> RecentActionView {
        match *self {
            RecentAction::ListRecent(limit) => RecentActionView::ListRecent(limit),
            RecentAction::Refresh(action) => RecentActionView::Refresh(action@),
            RecentAction::Finished => RecentActionView::Finished,
        }
    }
}

/// An answer to a [`RecentAction`].
pub enum RecentReply {
    Recent(PrintResult<Vec<PrintJob>>),
    Refresh(JobReply),
}

pub enum RecentReplyView {
    Recent(core::result::Result<Seq<PrintJobView>, PrintErrorView>),
    Refresh(JobReplyView),
}

impl View for RecentReply {
    type V = RecentReplyView;

    open spec fn view(&self) -> RecentReplyView {
        match *self {
            RecentReply::Recent(r) => RecentReplyView::Recent(listed(r)),
            RecentReply::Refresh(reply) => RecentReplyView::Refresh(reply@),
        }
    }
}

/// Where the list of recent jobs stands.
pub enum RecentFlow {
    Listing { limit: usize, refresh_active: bool },
    /// `job` is refreshed by `flow`; `pending` comes next, `done` is past.
    Refreshing { done: Vec<PrintJob>, job: PrintJob, flow: JobFlow, pending: Vec<PrintJob> },
    Done(PrintResult<Vec<PrintJob>>),
}

pub enum RecentFlowView {
    Listing { limit: usize, refresh_active: bool },
    Refreshing {
        done: Seq<PrintJobView>,
        job: PrintJobView,
        flow: JobFlowView,
        pending: Seq<PrintJobView>,
    },
    Done(core::result::Result<Seq<PrintJobView>, PrintErrorView>),
}

impl View for RecentFlow {
    type V = RecentFlowView;

    open spec fn view(&self) -> RecentFlowView {
        match *self {
            RecentFlow::Listing { limit, refresh_active } => RecentFlowView::Listing {
                limit,
                refresh_active,
            },
            RecentFlow::Refreshing { done, job, flow, pending } => RecentFlowView::Refreshing {
                done: views(done@),
                job: job@,
                flow: flow@,
                pending: views(pending@),
            },
            RecentFlow::Done(result) => RecentFlowView::Done(listed(result)),
        }
    }
}

impl RecentFlowView {
    /// The flow that goes on with the jobs in `pending`: those that the
    /// spooler knows of are refreshed, the others are listed as they are.
    pub open spec fn proceed(done: Seq<PrintJobView>, pending: Seq<PrintJobView>) -> Self
        decreases pending.len(),
    {
        if pending.len() == 0 {
            RecentFlowView::Done(Ok(done))
        } else if pending[0].inspectable() {
            RecentFlowView::Refreshing {
                done,
                job: pending[0],
                flow: JobFlowView::RefreshLookup(pending[0].id, pending[0].source_device_id),
                pending: pending.drop_first(),
            }
        } else {
            RecentFlowView::proceed(done.push(pending[0]), pending.drop_first())
        }
    }

    /// What the flow asks for.
    pub open spec fn action(self) -> RecentActionView {
        match self {
            RecentFlowView::Listing { limit, refresh_active } => RecentActionView::ListRecent(
                limit,
            ),
            RecentFlowView::Refreshing { done, job, flow, pending } => RecentActionView::Refresh(
                flow.action(),
            ),
            RecentFlowView::Done(_) => RecentActionView::Finished,
        }
    }

    /// The flow once the refresh of `job` has come to `flow`: the refreshed
    /// job takes the place of the listed one, unless the refresh failed.
    pub open spec fn after_refresh(
        done: Seq<PrintJobView>,
        job: PrintJobView,
        flow: JobFlowView,
        pending: Seq<PrintJobView>,
    ) -> Self {
        match flow {
            JobFlowView::Done(Ok(refreshed)) => RecentFlowView::proceed(
                done.push(refreshed),
                pending,
            ),
            JobFlowView::Done(Err(_)) => RecentFlowView::proceed(done.push(job), pending),
            _ => RecentFlowView::Refreshing { done, job, flow, pending },
        }
    }

    /// The flow after `reply`.
    pub open spec fn resumed(
        self,
        reply: RecentReplyView,
        now_ms: TimestampMs,
        fresh: Seq<char>,
    ) -> Self {
        match (self, reply) {
            (
                RecentFlowView::Listing { limit, refresh_active },
                RecentReplyView::Recent(Ok(jobs)),
            ) => if refresh_active {
                RecentFlowView::proceed(seq![], jobs)
            } else {
                RecentFlowView::Done(Ok(jobs))
            },
            (
                RecentFlowView::Listing { limit, refresh_active },
                RecentReplyView::Recent(Err(error)),
            ) => RecentFlowView::Done(Err(error)),
            (
                RecentFlowView::Refreshing { done, job, flow, pending },
                RecentReplyView::Refresh(reply),
            ) => RecentFlowView::after_refresh(
                done,
                job,
                flow.resumed(reply, now_ms, fresh),
                pending,
            ),
            _ => self,
        }
    }
}

fn proceed_recent(mut done: Vec<PrintJob>, mut pending: Vec<PrintJob>) -> (r: RecentFlow)
    ensures
        r@ == RecentFlowView::proceed(views(done@), views(pending@)),
    decreases pending@.len(),
{
    if pending.len() == 0 {
        return RecentFlow::Done(Ok(done));
    }
    let ghost before = pending@;
    let job = pending.remove(0);
    assert(views(pending@) =~= views(before).drop_first());
    if inspectable(job.state) {
        let flow = JobFlow::RefreshLookup(job.id.clone(), job.source_device_id.clone());
        RecentFlow::Refreshing { done, job, flow, pending }
    } else {
        let ghost past = views(done@);
        done.push(job);
        assert(views(done@) =~= past.push(before[0]@));
        proceed_recent(done, pending)
    }
}

impl RecentFlow {
    /// What the flow asks for.
    pub fn action(&self) -> (r: RecentAction<'_>)
        ensures
            r@ == self@.action(),
    {
        match self {
            RecentFlow::Listing { limit, refresh_active: _ } => RecentAction::ListRecent(*limit),
            RecentFlow::Refreshing { done: _, job: _, flow, pending: _ } => RecentAction::Refresh(
                flow.action(),
            ),
            RecentFlow::Done(_) => RecentAction::Finished,
        }
    }

    /// Takes an answer and moves on.
    pub fn resume(self, reply: RecentReply, now_ms: TimestampMs) -> (r: Self)
        ensures
            exists|fresh: Seq<char>|
                is_random_text(fresh) && r@ == #[trigger] self@.resumed(reply@, now_ms, fresh),
    {
        let ghost any = lemma_random_text_exists();
        let ghost before = self@;
        let ghost answer = reply@;
        match (self, reply) {
            (
                RecentFlow::Listing { limit: _, refresh_active },
                RecentReply::Recent(Ok(jobs)),
            ) => {
                let r = if refresh_active {
                    let done: Vec<PrintJob> = Vec::new();
                    assert(views(done@) =~= seq![]);
                    proceed_recent(done, jobs)
                } else {
                    RecentFlow::Done(Ok(jobs))
                };
                assert(r@ == before.resumed(answer, now_ms, any));
                r
            },
            (
                RecentFlow::Listing { limit: _, refresh_active: _ },
                RecentReply::Recent(Err(error)),
            ) => {
                let r = RecentFlow::Done(Err(error));
                assert(r@ == before.resumed(answer, now_ms, any));
                r
            },
            (
                RecentFlow::Refreshing { done: past, job, flow, pending },
                RecentReply::Refresh(reply),
            ) => {
                let ghost inner = flow@;
                let ghost told = reply@;
                let flow = flow.resume(reply, now_ms);
                let ghost fresh = choose|fresh: Seq<char>|
                    is_random_text(fresh) && flow@ == #[trigger] inner.resumed(told, now_ms, fresh);
                let mut done = past;
                let ghost listed_before = views(done@);
                let r = match flow {
                    JobFlow::Done(Ok(refreshed)) => {
                        done.push(refreshed);
                        assert(views(done@) =~= listed_before.push(refreshed@));
                        proceed_recent(done, pending)
                    },
                    JobFlow::Done(Err(_)) => {
                        done.push(job);
                        assert(views(done@) =~= listed_before.push(job@));
                        proceed_recent(done, pending)
                    },
                    flow => RecentFlow::Refreshing { done, job, flow, pending },
                };
                assert(r@ == before.resumed(answer, now_ms, fresh));
                r
            },
            (other, _) => {
                assert(before == before.resumed(answer, now_ms, any));
                other
            },
        }
    }
}

} // verus!
