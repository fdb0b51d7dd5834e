//! What is told of the jobs that were sent to other devices.
use vstd::prelude::*;

use crate::application::job_flow::{JobActionView, JobFlowView};
use crate::application::job_lists::{
    ReconcileActionView, ReconcileFlowView, RecentActionView, RecentFlowView,
};
use crate::application::share_service::{ShareActionView, ShareFlowView};
use crate::domain::TimestampMs;
use crate::domain::id::valid_id;
use crate::domain::job::PrintJobState;
use crate::infrastructure::ipp::activity::{
    outgoing, ListActionView, ListContextView, ListFlowView, ListReplyView, OutgoingPrintJobView,
};
use crate::infrastructure::ipp::jobs::{
    by_number, law_newest_jobs_are_shown, newest_first, shown, JobEntryView,
};
use crate::infrastructure::quic::printers::{found_remote, RemotePrinterView};
use crate::infrastructure::quic::replies::RemotePrintJobView;

verus! {

/// A job is listed with what was recorded of it; names that were not recorded
/// are those of its printer, if that is known.
pub proof fn law_listed_jobs_tell_what_is_known(
    entry: JobEntryView,
    remote: RemotePrinterView,
    known: Option<RemotePrinterView>,
)
    ensures
        ({
            let b = entry.binding;
            let job = outgoing(entry, known);
            &&& job.local_job_id == entry.id
            &&& job.remote_device_id == b.remote_device_id
            &&& job.printer_share_id == b.printer_share_id
            &&& job.remote_job_id == b.remote_job_id
            &&& job.state == b.state && job.failure_message == b.failure_message
            &&& job.created_at_ms == b.created_at_ms && job.updated_at_ms == b.updated_at_ms
            &&& job.source_available <==> known is Some
            &&& b.remote_device_name.len() > 0 ==> job.remote_device_name == b.remote_device_name
            &&& b.printer_name.len() > 0 ==> job.printer_name == b.printer_name
            &&& b.document_name.len() > 0 ==> job.document_name == b.document_name
            &&& b.document_name.len() == 0 ==> job.document_name == "Print job"@
        }),
        entry.binding.remote_device_name.len() == 0 ==> outgoing(entry, Some(remote)).remote_device_name
            == remote.printer.source_device_name && outgoing(entry, None).remote_device_name
            == entry.binding.remote_device_id,
        entry.binding.printer_name.len() == 0 ==> outgoing(entry, Some(remote)).printer_name
            == remote.printer.display_name && outgoing(entry, None).printer_name
            == "LAN printer"@,
{
}

/// A device is asked about a job if lists are to be refreshed, the job is not
/// known to have ended, and fewer than six were asked about; a job that cannot
/// be asked about is listed as it is.
pub proof fn law_open_jobs_are_asked_about(
    context: ListContextView,
    pending: Seq<JobEntryView>,
    done: Seq<OutgoingPrintJobView>,
    attempts: usize,
)
    requires
        pending.len() > 0,
    ensures
        ({
            let entry = pending[0];
            let rest = pending.drop_first();
            let flow = ListFlowView::proceed(context, pending, done, attempts);
            let remote = found_remote(
                context.remotes,
                entry.binding.remote_device_id,
                entry.binding.printer_share_id,
            );
            let open = entry.binding.state != Some(PrintJobState::Completed) && entry.binding.state
                != Some(PrintJobState::Cancelled) && entry.binding.state != Some(
                PrintJobState::Failed,
            );
            let wanted = context.refresh_active && open && attempts < 6;
            &&& wanted && valid_id(entry.binding.remote_job_id) && remote is Some ==> flow.action()
                == ListActionView::Query(remote->Some_0, entry.binding.remote_job_id)
            &&& wanted && (!valid_id(entry.binding.remote_job_id) || remote is None) ==> flow
                == ListFlowView::proceed(
                context,
                rest,
                done.push(outgoing(entry, remote)),
                (attempts + 1) as usize,
            )
            &&& !wanted ==> flow == ListFlowView::proceed(
                context,
                rest,
                done.push(outgoing(entry, remote)),
                attempts,
            )
        }),
        ListFlowView::proceed(context, seq![], done, attempts) == ListFlowView::Done(done),
{
}

/// What a device says of a job is recorded and listed; a job of which it says
/// nothing is listed as it was.
pub proof fn law_answers_are_listed(
    context: ListContextView,
    pending: Seq<JobEntryView>,
    entry: JobEntryView,
    remote: RemotePrinterView,
    job_id: Seq<char>,
    done: Seq<OutgoingPrintJobView>,
    attempts: usize,
    job: RemotePrintJobView,
    t1: TimestampMs,
    t2: TimestampMs,
)
    ensures
        ({
            let asking = ListFlowView::Asking { pending, entry, remote, job_id, done, attempts };
            let told = asking.resumed(context, ListReplyView::Job(Some(job)), t1);
            let plain = outgoing(entry, Some(remote));
            let fresh = OutgoingPrintJobView {
                state: Some(job.state),
                failure_message: job.failure_message,
                updated_at_ms: t1,
                ..plain
            };
            &&& asking.resumed(context, ListReplyView::Job(None), t1) == ListFlowView::proceed(
                context,
                pending,
                done.push(plain),
                attempts,
            )
            &&& told.action() == ListActionView::Record(entry.id, job.state, job.failure_message)
            &&& told.resumed(context, ListReplyView::Recorded, t2) == ListFlowView::proceed(
                context,
                pending,
                done.push(fresh),
                attempts,
            )
        }),
{
}

/// Jobs are shown from the newest to the oldest; of those created at the same
/// time the higher number comes first.
pub proof fn law_newest_jobs_come_first(jobs: Seq<JobEntryView>, limit: usize, i: int, j: int)
    requires
        by_number(jobs),
        0 <= i < j < newest_first(jobs).len(),
    ensures
        ({
            let (earlier, later) = (newest_first(jobs)[i], newest_first(jobs)[j]);
            earlier.0 > later.0 || (earlier.0 == later.0 && earlier.1 >= later.1)
        }),
        newest_first(jobs).to_multiset() == jobs.map_values(
            |e: JobEntryView| (e.binding.created_at_ms, e.id),
        ).to_multiset(),
        i < shown(jobs, limit).len() ==> shown(jobs, limit)[i].id == newest_first(jobs)[i].1,
{
    law_newest_jobs_are_shown(jobs, limit, i, j);
}

/// What is done asks for nothing more, and only that.
pub proof fn law_done_is_done(
    job: JobFlowView,
    share: ShareFlowView,
    reconciled: ReconcileFlowView,
    recent: RecentFlowView,
    list: ListFlowView,
)
    ensures
        job.action() == JobActionView::Finished <==> job is Done,
        share.action() == ShareActionView::Finished <==> share is Done,
        reconciled.action() == ReconcileActionView::Finished <==> reconciled is Done,
        recent.action() == RecentActionView::Finished <==> recent is Done,
        list.action() == ListActionView::Finished <==> list is Done,
{
}

} // verus!
