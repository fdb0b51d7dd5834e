//! What becomes of the jobs of a device that starts again, and of jobs that
//! are listed.
use vstd::prelude::*;

use crate::application::job_flow::{JobFlowView, JobReplyView};
use crate::application::job_lists::{
    RecentActionView, RecentFlowView, RecentReplyView, ReconcileActionView, ReconcileFlowView,
    ReconcileReplyView,
};
use crate::application::ports::NativeJobStatus;
use crate::domain::TimestampMs;
use crate::domain::job::{PrintJobState, PrintJobView};
use crate::error::PrintErrorView;
use crate::laws::jobs::{in_spooler, told};

verus! {

/// Whether a job has come to its end.
pub open spec fn has_ended(state: PrintJobState) -> bool {
    state == PrintJobState::Completed || state == PrintJobState::Cancelled || state
        == PrintJobState::Failed
}

/// After a restart the first job that has not ended is dealt with: a document
/// that was arriving is given up, a submission that was under way is in doubt,
/// what is in the spooler is asked about under its name there, and what waits
/// for its turn waits on. Only where there is no such job is there nothing to
/// do.
pub proof fn law_restart_deals_with_jobs(jobs: Seq<PrintJobView>, n: int, now_ms: TimestampMs)
    requires
        0 <= n <= jobs.len(),
        forall|i: int| 0 <= i < n ==> has_ended((#[trigger] jobs[i]).state),
        n < jobs.len() ==> !has_ended(jobs[n].state),
    ensures
        ReconcileFlowView::Listing.action() == ReconcileActionView::ListActive,
        ({
            let flow = ReconcileFlowView::Listing.resumed(
                ReconcileReplyView::Active(Ok(jobs)),
                now_ms,
            );
            if n == jobs.len() {
                flow == ReconcileFlowView::Done(Ok(seq![]))
            } else {
                let job = jobs[n];
                flow.action() == if job.state == PrintJobState::Receiving || job.state
                    == PrintJobState::Validating {
                    ReconcileActionView::Save(
                        told(
                            job,
                            PrintJobState::Failed,
                            Some("ArcRelay restarted before the document was ready"@),
                            now_ms,
                        ),
                    )
                } else if job.state == PrintJobState::Submitting {
                    ReconcileActionView::Save(
                        told(
                            job,
                            PrintJobState::Ambiguous,
                            Some(
                                "ArcRelay restarted while submitting; inspect the system queue before retrying"@,
                            ),
                            now_ms,
                        ),
                    )
                } else if job.state == PrintJobState::Offered || job.state
                    == PrintJobState::Ready {
                    ReconcileActionView::Save(job)
                } else if job.native_job_id is Some {
                    ReconcileActionView::QueryNative(job.native_job_id->Some_0)
                } else if job.state == PrintJobState::Ambiguous {
                    ReconcileActionView::Save(job)
                } else {
                    ReconcileActionView::Save(
                        told(
                            job,
                            PrintJobState::Held,
                            Some("native print job id is unavailable"@),
                            now_ms,
                        ),
                    )
                }
            }
        }),
{
    lemma_first_unfinished(jobs, seq![], n, now_ms);
}

proof fn lemma_first_unfinished(
    jobs: Seq<PrintJobView>,
    done: Seq<PrintJobView>,
    n: int,
    now_ms: TimestampMs,
)
    requires
        0 <= n <= jobs.len(),
        forall|i: int| 0 <= i < n ==> has_ended((#[trigger] jobs[i]).state),
    ensures
        ReconcileFlowView::proceed(jobs, done, now_ms) == ReconcileFlowView::proceed(
            jobs.skip(n),
            done,
            now_ms,
        ),
        n < jobs.len() ==> jobs.skip(n)[0] == jobs[n],
    decreases n,
{
    if n == 0 {
        assert(jobs.skip(0) =~= jobs);
    } else {
        let rest = jobs.drop_first();
        assert(has_ended(jobs[0].state));
        assert forall|i: int| 0 <= i < n - 1 implies has_ended((#[trigger] rest[i]).state) by {
            assert(rest[i] == jobs[i + 1]);
        }
        lemma_first_unfinished(rest, done, n - 1, now_ms);
        assert(rest.skip(n - 1) =~= jobs.skip(n));
    }
}

/// A job that was in the spooler at a restart is stored as the spooler tells:
/// it is printing, complete, cancelled or failed if and only if the spooler
/// says so.
pub proof fn law_restart_follows_the_spooler(
    pending: Seq<PrintJobView>,
    done: Seq<PrintJobView>,
    job: PrintJobView,
    native: Seq<char>,
    status: NativeJobStatus,
    now_ms: TimestampMs,
)
    requires
        in_spooler(job.state),
        job.native_job_id == Some(native),
    ensures
        (ReconcileFlowView::Inspecting { pending, job, native, done }).resumed(
            ReconcileReplyView::Status(Ok(status)),
            now_ms,
        ) == (ReconcileFlowView::Saving {
            pending,
            done,
            job: match status {
                NativeJobStatus::Printing => told(job, PrintJobState::Printing, None, now_ms),
                NativeJobStatus::Completed => told(job, PrintJobState::Completed, None, now_ms),
                NativeJobStatus::Cancelled => told(
                    job,
                    PrintJobState::Cancelled,
                    job.failure_message,
                    now_ms,
                ),
                NativeJobStatus::Failed => told(
                    job,
                    PrintJobState::Failed,
                    Some("native print job failed"@),
                    now_ms,
                ),
                NativeJobStatus::Held | NativeJobStatus::Unknown => told(
                    job,
                    PrintJobState::Held,
                    Some("native print status requires inspection"@),
                    now_ms,
                ),
                NativeJobStatus::Queued => if job.state == PrintJobState::Ambiguous {
                    told(job, PrintJobState::Queued, None, now_ms)
                } else {
                    job
                },
            },
        }),
{
}

/// A job that has been stored after a restart is listed behind those before
/// it, and the next one is dealt with; at the end all of them are given back.
pub proof fn law_restart_lists_what_it_stored(
    pending: Seq<PrintJobView>,
    done: Seq<PrintJobView>,
    job: PrintJobView,
    error: PrintErrorView,
    now_ms: TimestampMs,
)
    ensures
        ({
            let saving = ReconcileFlowView::Saving { pending, job, done };
            let next = saving.resumed(ReconcileReplyView::Saved(Ok(())), now_ms);
            &&& saving.action() == ReconcileActionView::Save(job)
            &&& saving.resumed(ReconcileReplyView::Saved(Err(error)), now_ms)
                == ReconcileFlowView::Done(Err(error))
            &&& pending.len() == 0 ==> next == ReconcileFlowView::Done(Ok(done.push(job)))
            &&& next matches ReconcileFlowView::Done(Ok(all)) ==> all == done.push(job)
            &&& next matches ReconcileFlowView::Saving { done: more, .. } ==> more == done.push(
                job,
            )
            &&& next matches ReconcileFlowView::Inspecting { done: more, .. } ==> more
                == done.push(job)
        }),
{
    lemma_proceed_keeps_done(pending, done.push(job), now_ms);
}

proof fn lemma_proceed_keeps_done(
    pending: Seq<PrintJobView>,
    done: Seq<PrintJobView>,
    now_ms: TimestampMs,
)
    ensures
        match ReconcileFlowView::proceed(pending, done, now_ms) {
            ReconcileFlowView::Done(Ok(all)) => all == done,
            ReconcileFlowView::Saving { pending, job, done: more } => more == done,
            ReconcileFlowView::Inspecting { pending, job, native, done: more } => more == done,
            _ => true,
        },
    decreases pending.len(),
{
    if pending.len() > 0 {
        lemma_proceed_keeps_done(pending.drop_first(), done, now_ms);
    }
}

/// The latest jobs are listed as they are stored; where they are to be
/// refreshed, exactly those in the spooler are, one after the other, each by
/// its own identifier and for its own device.
pub proof fn law_latest_jobs_are_listed(
    limit: usize,
    refresh_active: bool,
    jobs: Seq<PrintJobView>,
    n: int,
    now_ms: TimestampMs,
    fresh: Seq<char>,
)
    requires
        0 <= n <= jobs.len(),
        forall|i: int| 0 <= i < n ==> !in_spooler((#[trigger] jobs[i]).state),
        n < jobs.len() ==> in_spooler(jobs[n].state),
    ensures
        ({
            let listing = RecentFlowView::Listing { limit, refresh_active };
            let listed = listing.resumed(RecentReplyView::Recent(Ok(jobs)), now_ms, fresh);
            &&& listing.action() == RecentActionView::ListRecent(limit)
            &&& listed == if !refresh_active || n == jobs.len() {
                RecentFlowView::Done(Ok(jobs))
            } else {
                RecentFlowView::Refreshing {
                    done: jobs.take(n),
                    job: jobs[n],
                    flow: JobFlowView::RefreshLookup(jobs[n].id, jobs[n].source_device_id),
                    pending: jobs.skip(n + 1),
                }
            }
        }),
{
    lemma_recent(seq![], jobs, n);
    assert(Seq::<PrintJobView>::empty() + jobs.take(n) =~= jobs.take(n));
    assert(jobs.take(jobs.len() as int) =~= jobs);
}

proof fn lemma_recent(done: Seq<PrintJobView>, jobs: Seq<PrintJobView>, n: int)
    requires
        0 <= n <= jobs.len(),
        forall|i: int| 0 <= i < n ==> !in_spooler((#[trigger] jobs[i]).state),
        n < jobs.len() ==> in_spooler(jobs[n].state),
    ensures
        RecentFlowView::proceed(done, jobs) == if n == jobs.len() {
            RecentFlowView::Done(Ok(done + jobs.take(n)))
        } else {
            RecentFlowView::Refreshing {
                done: done + jobs.take(n),
                job: jobs[n],
                flow: JobFlowView::RefreshLookup(jobs[n].id, jobs[n].source_device_id),
                pending: jobs.skip(n + 1),
            }
        },
    decreases n,
{
    if n == 0 {
        assert(done + jobs.take(0) =~= done);
        if jobs.len() > 0 {
            assert(jobs.drop_first() =~= jobs.skip(1));
        }
    } else {
        let rest = jobs.drop_first();
        assert(!in_spooler(jobs[0].state));
        assert forall|i: int| 0 <= i < n - 1 implies !in_spooler((#[trigger] rest[i]).state) by {
            assert(rest[i] == jobs[i + 1]);
        }
        lemma_recent(done.push(jobs[0]), rest, n - 1);
        assert(done.push(jobs[0]) + rest.take(n - 1) =~= done + jobs.take(n));
        if n < jobs.len() {
            assert(rest.skip(n) =~= jobs.skip(n + 1));
        }
    }
}

/// A job that was refreshed takes the place of the listed one, a job that
/// could not be refreshed stays as it was listed, and the others are left
/// alone.
pub proof fn law_refreshing_keeps_the_list(
    done: Seq<PrintJobView>,
    job: PrintJobView,
    flow: JobFlowView,
    pending: Seq<PrintJobView>,
    reply: JobReplyView,
    now_ms: TimestampMs,
    fresh: Seq<char>,
)
    ensures
        ({
            let refreshing = RecentFlowView::Refreshing { done, job, flow, pending };
            let next = refreshing.resumed(RecentReplyView::Refresh(reply), now_ms, fresh);
            let shown = match flow.resumed(reply, now_ms, fresh) {
                JobFlowView::Done(Ok(refreshed)) => refreshed,
                _ => job,
            };
            &&& refreshing.action() == RecentActionView::Refresh(flow.action())
            &&& match next {
                RecentFlowView::Done(Ok(all)) => all == done.push(shown) + pending,
                RecentFlowView::Refreshing { done: more, job: other, flow: _, pending: left } => {
                    ||| more == done && other == job && left == pending
                    ||| more.push(other) + left == done.push(shown) + pending
                },
                _ => false,
            }
        }),
{
    let after = flow.resumed(reply, now_ms, fresh);
    let shown = match after {
        JobFlowView::Done(Ok(refreshed)) => refreshed,
        _ => job,
    };
    if after is Done {
        lemma_recent_keeps(done.push(shown), pending);
    }
}

proof fn lemma_recent_keeps(done: Seq<PrintJobView>, pending: Seq<PrintJobView>)
    ensures
        match RecentFlowView::proceed(done, pending) {
            RecentFlowView::Done(Ok(all)) => all == done + pending,
            RecentFlowView::Refreshing { done: more, job, flow, pending: left } => more.push(job)
                + left == done + pending,
            _ => false,
        },
    decreases pending.len(),
{
    if pending.len() == 0 {
        assert(done + pending =~= done);
    } else {
        lemma_recent_keeps(done.push(pending[0]), pending.drop_first());
        assert(done.push(pending[0]) + pending.drop_first() =~= done + pending);
    }
}

} // verus!
