//! The jobs that went through the bridge.
use vstd::prelude::*;
use vstd::relations::{sorted_by, total_ordering};
use vstd::seq_lib::{group_to_multiset_ensures, lemma_sorted_unique};
use vstd::string::*;

use crate::domain::job::PrintJobState;
use crate::domain::TimestampMs;
use crate::infrastructure::ipp::printer::{printer_uri, queue_uri};
use crate::infrastructure::quic::printers::{
    find_remote, found_remote, RemotePrinter, RemotePrinterView,
};
use crate::model::{lemma_filter_prefix, lemma_filter_suffix, opt, views};

verus! {

/// How many jobs the bridge remembers.
pub const MAX_JOB_BINDINGS: usize = 1_024;

/// The port on which the bridge listens.
pub const IPP_BRIDGE_PORT: u16 = 17_654;

/// A local job and the job on another device that it became.
#[derive(Debug, PartialEq, Eq)]
pub struct IppJobBinding {
    pub remote_device_id: String,
    pub printer_share_id: String,
    pub remote_job_id: String,
    pub remote_device_name: String,
    pub printer_name: String,
    pub document_name: String,
    pub state: Option<PrintJobState>,
    pub failure_message: Option<String>,
    pub created_at_ms: TimestampMs,
    pub updated_at_ms: TimestampMs,
}

pub struct IppJobBindingView {
    pub remote_device_id: Seq<char>,
    pub printer_share_id: Seq<char>,
    pub remote_job_id: Seq<char>,
    pub remote_device_name: Seq<char>,
    pub printer_name: Seq<char>,
    pub document_name: Seq<char>,
    pub state: Option<PrintJobState>,
    pub failure_message: Option<Seq<char>>,
    pub created_at_ms: TimestampMs,
    pub updated_at_ms: TimestampMs,
}

impl View for IppJobBinding {
    type V = IppJobBindingView;

    open spec fn view(&self) -> IppJobBindingView {
        IppJobBindingView {
            remote_device_id: self.remote_device_id@,
            printer_share_id: self.printer_share_id@,
            remote_job_id: self.remote_job_id@,
            remote_device_name: self.remote_device_name@,
            printer_name: self.printer_name@,
            document_name: self.document_name@,
            state: self.state,
            failure_message: opt(self.failure_message),
            created_at_ms: self.created_at_ms,
            updated_at_ms: self.updated_at_ms,
        }
    }
}

fn clone_message(message: &Option<String>) -> (r: Option<String>)
    ensures
        opt(r) == opt(*message),
{
    match message {
        Some(message) => Some(message.clone()),
        None => None,
    }
}

impl Clone for IppJobBinding {
    fn clone(&self) -> (r: Self)
        ensures
            r@ == self@,
    {
        IppJobBinding {
            remote_device_id: self.remote_device_id.clone(),
            printer_share_id: self.printer_share_id.clone(),
            remote_job_id: self.remote_job_id.clone(),
            remote_device_name: self.remote_device_name.clone(),
            printer_name: self.printer_name.clone(),
            document_name: self.document_name.clone(),
            state: self.state,
            failure_message: clone_message(&self.failure_message),
            created_at_ms: self.created_at_ms,
            updated_at_ms: self.updated_at_ms,
        }
    }
}

/// A numbered job.
#[derive(Debug, PartialEq, Eq)]
pub struct JobEntry {
    pub id: u32,
    pub binding: IppJobBinding,
}

pub struct JobEntryView {
    pub id: u32,
    pub binding: IppJobBindingView,
}

impl View for JobEntry {
    type V = JobEntryView;

    open spec fn view(&self) -> JobEntryView {
        JobEntryView { id: self.id, binding: self.binding@ }
    }
}

impl Clone for JobEntry {
    fn clone(&self) -> (r: Self)
        ensures
            r@ == self@,
    {
        JobEntry { id: self.id, binding: self.binding.clone() }
    }
}

/// Jobs by rising number, each number once.
pub open spec fn by_number(jobs: Seq<JobEntryView>) -> bool {
    forall|i: int, j: int|
        0 <= i < j < jobs.len() ==> (#[trigger] jobs[i]).id < (#[trigger] jobs[j]).id
}

/// The job with this number.
pub open spec fn job_numbered(jobs: Seq<JobEntryView>, id: u32) -> Option<IppJobBindingView>
    decreases jobs.len(),
{
    if jobs.len() == 0 {
        None
    } else if jobs[0].id == id {
        Some(jobs[0].binding)
    } else {
        job_numbered(jobs.drop_first(), id)
    }
}

/// The jobs with `binding` under `id`, in place of any other.
pub open spec fn with_job(jobs: Seq<JobEntryView>, id: u32, binding: IppJobBindingView) -> Seq<
    JobEntryView,
> {
    jobs.filter(|e: JobEntryView| e.id < id) + seq![JobEntryView { id, binding }] + jobs.filter(
        |e: JobEntryView| e.id > id,
    )
}

/// The jobs with the highest numbers, as many as are remembered.
pub open spec fn remembered(jobs: Seq<JobEntryView>) -> Seq<JobEntryView> {
    if jobs.len() > MAX_JOB_BINDINGS {
        jobs.skip(jobs.len() - MAX_JOB_BINDINGS)
    } else {
        jobs
    }
}

/// The binding after a report on its job.
pub open spec fn reported(
    binding: IppJobBindingView,
    state: PrintJobState,
    failure_message: Option<Seq<char>>,
    now_ms: TimestampMs,
) -> IppJobBindingView {
    IppJobBindingView { state: Some(state), failure_message, updated_at_ms: now_ms, ..binding }
}

/// The jobs after a report on one of them.
pub open spec fn with_report(
    jobs: Seq<JobEntryView>,
    id: u32,
    state: PrintJobState,
    failure_message: Option<Seq<char>>,
    now_ms: TimestampMs,
) -> Seq<JobEntryView> {
    jobs.map_values(
        |e: JobEntryView|
            if e.id == id {
                JobEntryView { id, binding: reported(e.binding, state, failure_message, now_ms) }
            } else {
                e
            },
    )
}

/// Jobs that were loaded, one after the other put in place.
pub open spec fn loaded(jobs: Seq<JobEntryView>) -> Seq<JobEntryView>
    decreases jobs.len(),
{
    if jobs.len() == 0 {
        seq![]
    } else {
        with_job(loaded(jobs.drop_last()), jobs.last().id, jobs.last().binding)
    }
}

/// The number after the highest, as far as there is one.
pub open spec fn number_after(jobs: Seq<JobEntryView>) -> u32 {
    if jobs.len() == 0 {
        1
    } else if jobs.last().id == u32::MAX {
        u32::MAX
    } else {
        (jobs.last().id + 1) as u32
    }
}

/// The number after `n`; after the largest comes zero.
pub open spec fn wrapped_next(n: u32) -> u32 {
    if n == u32::MAX {
        0
    } else {
        (n + 1) as u32
    }
}

/// The binding of a job that was submitted just now.
pub open spec fn submitted_binding(
    remote: RemotePrinterView,
    job_id: Seq<char>,
    document_name: Seq<char>,
    now_ms: TimestampMs,
) -> IppJobBindingView {
    IppJobBindingView {
        remote_device_id: remote.printer.source_device_id,
        printer_share_id: remote.printer.share_id,
        remote_job_id: job_id,
        remote_device_name: remote.printer.source_device_name,
        printer_name: remote.printer.display_name,
        document_name,
        state: Some(PrintJobState::Queued),
        failure_message: None,
        created_at_ms: now_ms,
        updated_at_ms: now_ms,
    }
}

/// The bridge between local print queues and printers of other devices.
pub struct IppBridge {
    port: u16,
    next_job_id: u32,
    jobs: Vec<JobEntry>,
}

pub struct IppBridgeView {
    pub port: u16,
    pub next_job_id: u32,
    pub jobs: Seq<JobEntryView>,
}

impl View for IppBridge {
    type V = IppBridgeView;

    closed spec fn view(&self) -> IppBridgeView {
        IppBridgeView {
            port: self.port,
            next_job_id: self.next_job_id,
            jobs: views(self.jobs@),
        }
    }
}

proof fn lemma_place(all: Seq<JobEntryView>, id: u32, i: int, rest: int)
    requires
        by_number(all),
        0 <= i <= rest <= all.len(),
        rest <= i + 1,
        rest > i ==> all[i].id == id,
        forall|j: int| 0 <= j < i ==> (#[trigger] all[j]).id < id,
        rest < all.len() ==> all[rest].id > id,
    ensures
        all.filter(|e: JobEntryView| e.id < id) == all.take(i),
        all.filter(|e: JobEntryView| e.id > id) == all.skip(rest),
{
    assert forall|j: int| rest <= j < all.len() implies (#[trigger] all[j]).id > id by {
        if j > rest {
            assert(all[rest].id < all[j].id);
        }
    }
    lemma_filter_prefix(all, i, |e: JobEntryView| e.id < id);
    lemma_filter_suffix(all, rest, |e: JobEntryView| e.id > id);
}

proof fn lemma_placed_in_order(all: Seq<JobEntryView>, entry: JobEntryView, i: int, rest: int)
    requires
        by_number(all),
        0 <= i <= rest <= all.len(),
        forall|j: int| 0 <= j < i ==> (#[trigger] all[j]).id < entry.id,
        rest < all.len() ==> all[rest].id > entry.id,
    ensures
        by_number(all.take(i) + seq![entry] + all.skip(rest)),
{
    let after = all.take(i) + seq![entry] + all.skip(rest);
    assert forall|a: int, b: int| 0 <= a < b < after.len() implies (#[trigger] after[a]).id < (
    #[trigger] after[b]).id by {
        if b <= i {
            assert(after[a] == all[a]);
        } else {
            let b0 = b - i - 1 + rest;
            assert(after[b] == all[b0]);
            if b0 > rest {
                assert(all[rest].id < all[b0].id);
            }
            if a < i {
                assert(after[a] == all[a]);
            } else if a > i {
                assert(after[a] == all[a - i - 1 + rest]);
            }
        }
    }
}

fn put_job(jobs: &mut Vec<JobEntry>, id: u32, binding: IppJobBinding)
    requires
        by_number(views(old(jobs)@)),
    ensures
        by_number(views(final(jobs)@)),
        views(final(jobs)@) == with_job(views(old(jobs)@), id, binding@),
{
    let ghost all = views(jobs@);
    let mut i: usize = 0;
    while i < jobs.len() && jobs[i].id < id
        invariant
            i <= jobs@.len(),
            all == views(jobs@),
            forall|j: int| 0 <= j < i ==> (#[trigger] all[j]).id < id,
        decreases jobs@.len() - i,
    {
        assert(all[i as int].id < id);
        i += 1;
    }
    let present = i < jobs.len() && jobs[i].id == id;
    let ghost rest = if present {
        i + 1
    } else {
        i as int
    };
    let ghost entry = JobEntryView { id, binding: binding@ };
    proof {
        if i < all.len() {
            assert(all[i as int] == jobs@[i as int]@);
        }
        if present && rest < all.len() {
            assert(all[i as int].id < all[rest].id);
        }
        lemma_place(all, id, i as int, rest);
        lemma_placed_in_order(all, entry, i as int, rest);
    }
    if present {
        jobs.set(i, JobEntry { id, binding });
    } else {
        jobs.insert(i, JobEntry { id, binding });
    }
    assert(views(jobs@) =~= all.take(i as int) + seq![entry] + all.skip(rest));
}

impl IppBridge {
    /// The jobs are in the order of their numbers.
    pub open spec fn wf(&self) -> bool {
        by_number(self@.jobs)
    }

    /// A bridge on `port` that knows the jobs that were loaded.
    pub fn new(port: u16, jobs: &Vec<JobEntry>) -> (r: Self)
        ensures
            r.wf(),
            r@ == (IppBridgeView {
                port,
                next_job_id: number_after(loaded(views(jobs@))),
                jobs: loaded(views(jobs@)),
            }),
    {
        let ghost all = views(jobs@);
        let mut table: Vec<JobEntry> = Vec::new();
        let mut i: usize = 0;
        assert(all.take(0) =~= seq![]);
        assert(views(table@) =~= seq![]);
        while i < jobs.len()
            invariant
                i <= jobs@.len(),
                all == views(jobs@),
                by_number(views(table@)),
                views(table@) == loaded(all.take(i as int)),
            decreases jobs@.len() - i,
        {
            assert(all.take(i + 1).drop_last() =~= all.take(i as int));
            assert(all.take(i + 1).last() == jobs@[i as int]@);
            put_job(&mut table, jobs[i].id, jobs[i].binding.clone());
            i += 1;
        }
        assert(all.take(i as int) =~= all);
        let next_job_id: u32 = if table.len() == 0 {
            1
        } else {
            let last: u32 = table[table.len() - 1].id;
            assert(views(table@).last() == table@[table@.len() - 1]@);
            last.saturating_add(1)
        };
        IppBridge { port, next_job_id, jobs: table }
    }

    /// The port on which the bridge listens.
    pub fn port(&self) -> (r: u16)
        ensures
            r == self@.port,
    {
        self.port
    }

    /// Where the queue for a printer of another device leads.
    pub fn printer_uri(&self, printer: &RemotePrinter) -> (r: String)
        ensures
            r@ == queue_uri(self@.port, printer@),
    {
        printer_uri(self.port, printer)
    }

    /// The number of a new job.
    pub fn take_job_id(&mut self) -> (r: u32)
        requires
            old(self).wf(),
        ensures
            final(self).wf(),
            r == old(self)@.next_job_id,
            final(self)@ == (IppBridgeView {
                next_job_id: wrapped_next(old(self)@.next_job_id),
                ..old(self)@
            }),
    {
        let id: u32 = self.next_job_id;
        self.next_job_id = id.wrapping_add(1);
        id
    }

    /// Remembers a job that was submitted; where that makes too many, those
    /// with the lowest numbers are forgotten.
    pub fn record_job(
        &mut self,
        local_job_id: u32,
        remote: &RemotePrinter,
        job_id: &str,
        document_name: &str,
        now_ms: TimestampMs,
    )
        requires
            old(self).wf(),
        ensures
            final(self).wf(),
            final(self)@ == (IppBridgeView {
                jobs: remembered(
                    with_job(
                        old(self)@.jobs,
                        local_job_id,
                        submitted_binding(remote@, job_id@, document_name@, now_ms),
                    ),
                ),
                ..old(self)@
            }),
    {
        let binding = IppJobBinding {
            remote_device_id: remote.printer.source_device_id.to_string(),
            printer_share_id: remote.printer.share_id.to_string(),
            remote_job_id: job_id.to_string(),
            remote_device_name: remote.printer.source_device_name.clone(),
            printer_name: remote.printer.display_name.clone(),
            document_name: document_name.to_string(),
            state: Some(PrintJobState::Queued),
            failure_message: None,
            created_at_ms: now_ms,
            updated_at_ms: now_ms,
        };
        put_job(&mut self.jobs, local_job_id, binding);
        let ghost all = views(self.jobs@);
        let ghost n = 0int;
        assert(all.skip(0) =~= all);
        while self.jobs.len() > MAX_JOB_BINDINGS
            invariant
                0 <= n <= all.len(),
                by_number(all),
                views(self.jobs@) == all.skip(n),
                self.jobs@.len() == all.len() - n,
                n > 0 ==> self.jobs@.len() >= MAX_JOB_BINDINGS,
                self.port == old(self).port,
                self.next_job_id == old(self).next_job_id,
            decreases self.jobs@.len(),
        {
            let ghost before = self.jobs@;
            self.jobs.remove(0);
            proof {
                assert(views(self.jobs@) =~= views(before).skip(1));
                assert(all.skip(n).skip(1) =~= all.skip(n + 1));
                n = n + 1;
            }
        }
        proof {
            assert(all.skip(n) =~= remembered(all));
            assert forall|i: int, j: int| 0 <= i < j < all.skip(n).len() implies (
            #[trigger] all.skip(n)[i]).id < (#[trigger] all.skip(n)[j]).id by {
                assert(all[n + i].id < all[n + j].id);
            }
        }
    }

    /// Takes a report on a job; tells whether the job is known.
    pub fn update_job_state(
        &mut self,
        local_job_id: u32,
        state: PrintJobState,
        failure_message: Option<String>,
        now_ms: TimestampMs,
    ) -> (r: bool)
        requires
            old(self).wf(),
        ensures
            final(self).wf(),
            r == (job_numbered(old(self)@.jobs, local_job_id) is Some),
            final(self)@ == (IppBridgeView {
                jobs: with_report(
                    old(self)@.jobs,
                    local_job_id,
                    state,
                    opt(failure_message),
                    now_ms,
                ),
                ..old(self)@
            }),
    {
        let ghost all = views(self.jobs@);
        let ghost target = with_report(all, local_job_id, state, opt(failure_message), now_ms);
        match self.position(local_job_id) {
            Some(i) => {
                let ghost message = opt(failure_message);
                let mut binding = self.jobs[i].binding.clone();
                binding.state = Some(state);
                binding.failure_message = failure_message;
                binding.updated_at_ms = now_ms;
                self.jobs.set(i, JobEntry { id: local_job_id, binding });
                proof {
                    let after = views(self.jobs@);
                    assert forall|j: int| 0 <= j < all.len() implies after[j] == target[j] by {
                        if j < i {
                            assert(all[j].id < all[i as int].id);
                        } else if j > i {
                            assert(all[i as int].id < all[j].id);
                        }
                    }
                    assert(after =~= target);
                    assert forall|a: int, b: int| 0 <= a < b < after.len() implies (
                    #[trigger] after[a]).id < (#[trigger] after[b]).id by {
                        assert(all[a].id < all[b].id);
                    }
                }
                true
            },
            None => {
                assert(target =~= all);
                false
            },
        }
    }

    fn position(&self, id: u32) -> (r: Option<usize>)
        requires
            self.wf(),
        ensures
            match r {
                Some(i) => i < self.jobs@.len() && self.jobs@[i as int].id == id && job_numbered(
                    self@.jobs,
                    id,
                ) == Some(self.jobs@[i as int].binding@),
                None => job_numbered(self@.jobs, id) is None && forall|j: int|
                    0 <= j < self@.jobs.len() ==> (#[trigger] self@.jobs[j]).id != id,
            },
    {
        let ghost all = views(self.jobs@);
        let mut i: usize = 0;
        assert(all.skip(0) =~= all);
        while i < self.jobs.len()
            invariant
                i <= self.jobs@.len(),
                all == views(self.jobs@),
                job_numbered(all, id) == job_numbered(all.skip(i as int), id),
                forall|j: int| 0 <= j < i ==> (#[trigger] all[j]).id != id,
            decreases self.jobs@.len() - i,
        {
            assert(all.skip(i as int)[0] == self.jobs@[i as int]@);
            assert(all.skip(i as int).drop_first() =~= all.skip(i + 1));
            if self.jobs[i].id == id {
                return Some(i);
            }
            i += 1;
        }
        None
    }

    /// The job with this number, and the printer that it went to, if both are
    /// known.
    pub fn resolve_binding(&self, local_job_id: u32, remotes: &Vec<RemotePrinter>) -> (r: Option<
        (IppJobBinding, RemotePrinter),
    >)
        requires
            self.wf(),
        ensures
            match resolved(self@.jobs, local_job_id, views(remotes@)) {
                Some((binding, remote)) => r matches Some((b, p)) && b@ == binding && p@ == remote,
                None => r is None,
            },
    {
        let i: usize = match self.position(local_job_id) {
            Some(i) => i,
            None => {
                return None;
            },
        };
        let binding = self.jobs[i].binding.clone();
        match find_remote(
            remotes,
            binding.remote_device_id.as_str(),
            binding.printer_share_id.as_str(),
        ) {
            Some(remote) => Some((binding, remote)),
            None => None,
        }
    }

    /// A copy of everything that the bridge remembers.
    pub fn bindings(&self) -> (r: Vec<JobEntry>)
        ensures
            views(r@) == self@.jobs,
    {
        let mut out: Vec<JobEntry> = Vec::new();
        let mut i: usize = 0;
        while i < self.jobs.len()
            invariant
                i <= self.jobs@.len(),
                out@.len() == i,
                forall|j: int| 0 <= j < i ==> (#[trigger] out@[j])@ == self.jobs@[j]@,
            decreases self.jobs@.len() - i,
        {
            out.push(self.jobs[i].clone());
            i += 1;
        }
        assert(views(out@) =~= self@.jobs);
        out
    }

    /// The latest jobs, as many as are shown.
    pub(crate) fn latest(&self, limit: usize) -> (r: Vec<JobEntry>)
        requires
            self.wf(),
        ensures
            views(r@) == shown(self@.jobs, limit),
    {
        let mut keys: Vec<(i64, u32)> = Vec::new();
        let ghost all = views(self.jobs@);
        let mut i: usize = 0;
        while i < self.jobs.len()
            invariant
                i <= self.jobs@.len(),
                all == views(self.jobs@),
                keys@ == ages(all.take(i as int)),
            decreases self.jobs@.len() - i,
        {
            let entry = &self.jobs[i];
            keys.push((entry.binding.created_at_ms, entry.id));
            assert(keys@ =~= ages(all.take(i + 1)));
            i += 1;
        }
        assert(all.take(i as int) =~= all);
        let sorted = sort_newest_first(&keys);
        let mut count: usize = if limit < 100 {
            limit
        } else {
            100
        };
        if sorted.len() < count {
            count = sorted.len();
        }
        let ghost order = newest_first(all).take(count as int);
        proof {
            ages(all).lemma_sort_by_ensures(newer());
            lemma_newer_is_total();
        }
        let mut out: Vec<JobEntry> = Vec::new();
        let mut k: usize = 0;
        assert(sorted@ == newest_first(all));
        while k < count
            invariant
                self.wf(),
                all == views(self.jobs@),
                k <= count <= sorted@.len(),
                sorted@ == newest_first(all),
                order == newest_first(all).take(count as int),
                views(out@) == entries(all, order.take(k as int)),
            decreases count - k,
        {
            let id: u32 = sorted[k].1;
            proof {
                lemma_sorted_are_known(all, k as int);
                assert(order.take(k + 1) =~= order.take(k as int).push(sorted@[k as int]));
            }
            let ghost before = views(out@);
            match self.position(id) {
                Some(at) => {
                    let entry = self.jobs[at].clone();
                    out.push(entry);
                    assert(views(out@) =~= before.push(JobEntryView { id, binding: entry.binding@ }));
                    assert(views(out@) =~= entries(all, order.take(k + 1)));
                },
                None => {
                    assert(false);
                },
            }
            k += 1;
        }
        assert(order.take(k as int) =~= order);
        out
    }
}

/// The job with this number, and the printer that it went to, if both are
/// known.
pub open spec fn resolved(
    jobs: Seq<JobEntryView>,
    id: u32,
    remotes: Seq<RemotePrinterView>,
) -> Option<(IppJobBindingView, RemotePrinterView)> {
    match job_numbered(jobs, id) {
        None => None,
        Some(binding) => match found_remote(
            remotes,
            binding.remote_device_id,
            binding.printer_share_id,
        ) {
            None => None,
            Some(remote) => Some((binding, remote)),
        },
    }
}

/// When jobs were created, and their numbers.
pub open spec fn ages(jobs: Seq<JobEntryView>) -> Seq<(i64, u32)> {
    jobs.map_values(|e: JobEntryView| (e.binding.created_at_ms, e.id))
}

/// The order from the newest job to the oldest.
pub open spec fn newer() -> spec_fn((i64, u32), (i64, u32)) -> bool {
    |a: (i64, u32), b: (i64, u32)| a.0 > b.0 || (a.0 == b.0 && a.1 >= b.1)
}

/// When jobs were created, and their numbers, the newest first.
pub open spec fn newest_first(jobs: Seq<JobEntryView>) -> Seq<(i64, u32)> {
    ages(jobs).sort_by(newer())
}

/// The jobs with the numbers in `order`.
pub open spec fn entries(jobs: Seq<JobEntryView>, order: Seq<(i64, u32)>) -> Seq<JobEntryView> {
    order.map_values(
        |k: (i64, u32)| JobEntryView { id: k.1, binding: job_numbered(jobs, k.1)->Some_0 },
    )
}

/// The latest jobs, the newest first: `limit` of them, but at most 100.
pub open spec fn shown(jobs: Seq<JobEntryView>, limit: usize) -> Seq<JobEntryView> {
    let all = newest_first(jobs);
    let most = if limit < 100 { limit as int } else { 100 };
    entries(
        jobs,
        all.take(
            if all.len() < most {
                all.len() as int
            } else {
                most
            },
        ),
    )
}

proof fn lemma_newer_is_total()
    ensures
        total_ordering(newer()),
{
}

/// In an ordered list each job is found under its number.
pub proof fn lemma_numbered(jobs: Seq<JobEntryView>, i: int)
    requires
        by_number(jobs),
        0 <= i < jobs.len(),
    ensures
        job_numbered(jobs, jobs[i].id) == Some(jobs[i].binding),
    decreases i,
{
    if i > 0 {
        assert(jobs[0].id < jobs[i].id);
        let rest = jobs.drop_first();
        assert forall|a: int, b: int| 0 <= a < b < rest.len() implies (#[trigger] rest[a]).id < (
        #[trigger] rest[b]).id by {
            assert(jobs[a + 1].id < jobs[b + 1].id);
        }
        lemma_numbered(rest, i - 1);
        assert(rest[i - 1] == jobs[i]);
    }
}

proof fn lemma_sorted_are_known(jobs: Seq<JobEntryView>, k: int)
    requires
        by_number(jobs),
        0 <= k < newest_first(jobs).len(),
    ensures
        job_numbered(jobs, newest_first(jobs)[k].1) is Some,
{
    broadcast use group_to_multiset_ensures;

    lemma_newer_is_total();
    ages(jobs).lemma_sort_by_ensures(newer());
    let key = newest_first(jobs)[k];
    assert(newest_first(jobs).contains(key));
    assert(ages(jobs).contains(key));
    let i = choose|i: int| 0 <= i < ages(jobs).len() && ages(jobs)[i] == key;
    lemma_numbered(jobs, i);
}

fn sort_newest_first(keys: &Vec<(i64, u32)>) -> (r: Vec<(i64, u32)>)
    ensures
        r@ == keys@.sort_by(newer()),
{
    let mut out: Vec<(i64, u32)> = Vec::new();
    let mut i: usize = 0;
    assert(keys@.take(0) =~= out@);
    while i < keys.len()
        invariant
            i <= keys@.len(),
            sorted_by(out@, newer()),
            out@.to_multiset() == keys@.take(i as int).to_multiset(),
        decreases keys@.len() - i,
    {
        broadcast use group_to_multiset_ensures;

        let key: (i64, u32) = keys[i];
        let mut at: usize = 0;
        while at < out.len() && (out[at].0 > key.0 || (out[at].0 == key.0 && out[at].1 >= key.1))
            invariant
                at <= out@.len(),
                forall|j: int| 0 <= j < at ==> #[trigger] newer()(out@[j], key),
            decreases out@.len() - at,
        {
            assert(newer()(out@[at as int], key));
            at += 1;
        }
        let ghost before = out@;
        assert forall|j: int| at <= j < before.len() implies newer()(key, #[trigger] before[j]) by {
            if j > at {
                assert(newer()(before[at as int], before[j]));
            }
            assert(!newer()(before[at as int], key));
        }
        out.insert(at, key);
        proof {
            assert(out@ =~= before.insert(at as int, key));
            assert forall|a: int, b: int| 0 <= a < b < out@.len() implies #[trigger] newer()(
                out@[a],
                out@[b],
            ) by {
                let a0 = if a < at { a } else { a - 1 };
                let b0 = if b < at { b } else { b - 1 };
                if a == at {
                    assert(newer()(key, before[b0]));
                } else if b == at {
                    assert(newer()(before[a0], key));
                } else {
                    assert(newer()(before[a0], before[b0]));
                }
            }
            assert(keys@.take(i + 1) =~= keys@.take(i as int).push(key));
            assert(before.insert(at as int, key).to_multiset() == before.to_multiset().insert(key));
        }
        i += 1;
    }
    proof {
        assert(keys@.take(i as int) =~= keys@);
        lemma_newer_is_total();
        keys@.lemma_sort_by_ensures(newer());
        lemma_sorted_unique(out@, keys@.sort_by(newer()), newer());
    }
    out
}

/// After a start no number is given out that a remembered job has, as long as
/// there are higher numbers.
pub proof fn law_new_numbers_are_unused(jobs: Seq<JobEntryView>, i: int)
    requires
        by_number(jobs),
        0 <= i < jobs.len(),
        jobs.last().id < u32::MAX,
    ensures
        jobs[i].id < number_after(jobs),
{
    if i < jobs.len() - 1 {
        assert(jobs[i].id < jobs[jobs.len() - 1].id);
    }
}

/// What is shown of the jobs is in order, from the newest to the oldest, and
/// nothing newer is left out.
pub proof fn law_newest_jobs_are_shown(jobs: Seq<JobEntryView>, limit: usize, i: int, j: int)
    requires
        by_number(jobs),
        0 <= i < j < newest_first(jobs).len(),
    ensures
        newer()(newest_first(jobs)[i], newest_first(jobs)[j]),
        newest_first(jobs).to_multiset() == ages(jobs).to_multiset(),
        i < shown(jobs, limit).len() ==> shown(jobs, limit)[i].id == newest_first(jobs)[i].1,
        shown(jobs, limit).len() <= limit,
{
    lemma_newer_is_total();
    ages(jobs).lemma_sort_by_ensures(newer());
    assert(newer()(newest_first(jobs)[i], newest_first(jobs)[j]));
}

} // verus!
