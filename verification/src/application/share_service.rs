//! Publishing the printers of this machine.
use vstd::prelude::*;
use vstd::string::*;

use crate::domain::id::{DeviceId, LocalPrinterId, PrinterShareId};
use crate::domain::printer::{
    LocalPrinter, LocalPrinterView, PrinterStatus, PublishedPrinter, PublishedPrinterView,
};
use crate::domain::queue_binding::{
    is_managed_remote_queue_name, RemoteQueueBinding, RemoteQueueBindingView, REMOTE_QUEUE_PREFIX,
};
use crate::domain::share::{
    published_share, PrinterShare, PrinterShareView, ShareScope, ShareState,
};
use crate::domain::TimestampMs;
use crate::error::{listed, optional, outcome, PrintError, PrintErrorView, PrintResult};
use crate::model::{lemma_filter_kept, lemma_filter_none, lemma_filter_step, opt, views};
use crate::text::{has_prefix, same};
use crate::unique::{is_random_text, lemma_random_text_exists};

verus! {

/// The names and identifiers of the local queues that lead to printers of
/// other devices.
pub struct RemoteQueueIds {
    ids: Vec<String>,
}

impl View for RemoteQueueIds {
    type V = Set<Seq<char>>;

    closed spec fn view(&self) -> Set<Seq<char>> {
        views(self.ids@).to_set()
    }
}

impl RemoteQueueIds {
    /// No queues.
    pub fn new() -> (r: Self)
        ensures
            r@ == Set::<Seq<char>>::empty(),
    {
        let r = RemoteQueueIds { ids: Vec::new() };
        assert(r@ =~= Set::empty());
        r
    }

    /// Adds a name or an identifier.
    pub fn insert(&mut self, id: String)
        ensures
            final(self)@ == old(self)@.insert(id@),
    {
        let ghost before = views(self.ids@);
        self.ids.push(id);
        let ghost after = views(self.ids@);
        assert(after =~= before.push(id@));
        assert forall|x: Seq<char>| after.contains(x) <==> before.contains(x) || x == id@ by {
            if before.contains(x) {
                let i = choose|i: int| 0 <= i < before.len() && before[i] == x;
                assert(after[i] == x);
            }
            assert(after[before.len() as int] == id@);
        }
        assert(self@ =~= old(self)@.insert(id@));
    }

    /// Whether `id` is the name or the identifier of one of the queues.
    pub fn contains(&self, id: &str) -> (r: bool)
        ensures
            r == self@.contains(id@),
    {
        let mut i: usize = 0;
        while i < self.ids.len()
            invariant
                i <= self.ids@.len(),
                forall|j: int| 0 <= j < i ==> #[trigger] views(self.ids@)[j] != id@,
            decreases self.ids@.len() - i,
        {
            if same(self.ids[i].as_str(), id) {
                assert(views(self.ids@)[i as int] == id@);
                return true;
            }
            i += 1;
        }
        false
    }
}

/// The names and identifiers that `bindings` hold.
pub open spec fn ids_of(bindings: Seq<RemoteQueueBindingView>) -> Set<Seq<char>> {
    Set::new(
        |id: Seq<char>|
            exists|i: int| 0 <= i < bindings.len() && #[trigger] names_queue(bindings[i], id),
    )
}

/// Whether `id` is the name or the identifier of the queue of `binding`.
pub open spec fn names_queue(binding: RemoteQueueBindingView, id: Seq<char>) -> bool {
    binding.system_queue_name == id || binding.system_queue_id == Some(id)
}

/// The names and identifiers that `bindings` hold.
pub fn remote_queue_ids(bindings: &Vec<RemoteQueueBinding>) -> (r: RemoteQueueIds)
    ensures
        r@ == ids_of(views(bindings@)),
{
    let ghost all = views(bindings@);
    let mut ids = RemoteQueueIds::new();
    let mut i: usize = 0;
    assert(ids@ =~= ids_of(all.take(0)));
    while i < bindings.len()
        invariant
            i <= bindings@.len(),
            all == views(bindings@),
            ids@ == ids_of(all.take(i as int)),
        decreases bindings@.len() - i,
    {
        let binding = &bindings[i];
        let ghost known = ids@;
        ids.insert(binding.system_queue_name.clone());
        match &binding.system_queue_id {
            Some(id) => {
                ids.insert(id.to_string());
            },
            None => {},
        }
        proof {
            let some = all.take(i as int);
            let more = all.take(i + 1);
            assert forall|id: Seq<char>| #[trigger] ids@.contains(id) <==> ids_of(more).contains(
                id,
            ) by {
                if known.contains(id) {
                    let j = choose|j: int| 0 <= j < some.len() && #[trigger] names_queue(some[j], id);
                    assert(names_queue(more[j], id));
                }
                if names_queue(binding@, id) {
                    assert(names_queue(more[i as int], id));
                }
                if ids_of(more).contains(id) {
                    let j = choose|j: int| 0 <= j < more.len() && #[trigger] names_queue(more[j], id);
                    if j < i {
                        assert(names_queue(some[j], id));
                    } else {
                        assert(more[j] == binding@);
                    }
                }
            }
            assert(ids@ =~= ids_of(more));
        }
        i += 1;
    }
    assert(all.take(i as int) =~= all);
    ids
}

/// A local queue that leads to a printer of another device: its name is
/// reserved, or it is known under this identifier.
pub open spec fn leads_elsewhere(id: Seq<char>, ids: Set<Seq<char>>) -> bool {
    has_prefix(id, REMOTE_QUEUE_PREFIX@) || ids.contains(id)
}

/// Whether a local queue leads to a printer of another device.
pub fn is_remote_queue(id: &LocalPrinterId, remote_queue_ids: &RemoteQueueIds) -> (r: bool)
    ensures
        r == leads_elsewhere(id@, remote_queue_ids@),
{
    is_managed_remote_queue_name(id.as_str()) || remote_queue_ids.contains(id.as_str())
}

/// What a flow asks for.
pub enum ShareAction<'a> {
    ListBindings,
    FindPrinter(&'a LocalPrinterId),
    FindByPrinter(&'a LocalPrinterId),
    Find(&'a PrinterShareId),
    Save(&'a PrinterShare),
    Finished,
}

pub enum ShareActionView {
    ListBindings,
    FindPrinter(Seq<char>),
    FindByPrinter(Seq<char>),
    Find(Seq<char>),
    Save(PrinterShareView),
    Finished,
}

impl<'a> View for ShareAction<'a> {
    type V = ShareActionView;

    open spec fn view(&self) -> ShareActionView {
        match *self {
            ShareAction::ListBindings => ShareActionView::ListBindings,
            ShareAction::FindPrinter(id) => ShareActionView::FindPrinter(id@),
            ShareAction::FindByPrinter(id) => ShareActionView::FindByPrinter(id@),
            ShareAction::Find(id) => ShareActionView::Find(id@),
            ShareAction::Save(share) => ShareActionView::Save(share@),
            ShareAction::Finished => ShareActionView::Finished,
        }
    }
}

/// An answer to a [`ShareAction`].
pub enum ShareReply {
    Bindings(PrintResult<Vec<RemoteQueueBinding>>),
    Printer(PrintResult<Option<LocalPrinter>>),
    Share(PrintResult<Option<PrinterShare>>),
    Saved(PrintResult<()>),
}

pub enum ShareReplyView {
    Bindings(core::result::Result<Seq<RemoteQueueBindingView>, PrintErrorView>),
    Printer(core::result::Result<Option<LocalPrinterView>, PrintErrorView>),
    Share(core::result::Result<Option<PrinterShareView>, PrintErrorView>),
    Saved(core::result::Result<(), PrintErrorView>),
}

impl View for ShareReply {
    type V = ShareReplyView;

    open spec fn view(&self) -> ShareReplyView {
        match *self {
            ShareReply::Bindings(r) => ShareReplyView::Bindings(listed(r)),
            ShareReply::Printer(r) => ShareReplyView::Printer(optional(r)),
            ShareReply::Share(r) => ShareReplyView::Share(optional(r)),
            ShareReply::Saved(r) => ShareReplyView::Saved(outcome(r)),
        }
    }
}

/// Where publishing or suspending a printer stands.
pub enum ShareFlow {
    /// Does the printer lead to another device?
    PublishBindings(LocalPrinterId),
    /// Publishing began at the given time: what is the printer like?
    PublishPrinter(LocalPrinterId, TimestampMs),
    /// Has the printer been published before?
    PublishShare(LocalPrinterId, LocalPrinter, TimestampMs),
    SuspendLookup(PrinterShareId),
    Saving(PrinterShare),
    Done(PrintResult<PrinterShare>),
}

pub enum ShareFlowView {
    PublishBindings(Seq<char>),
    PublishPrinter(Seq<char>, TimestampMs),
    PublishShare(Seq<char>, LocalPrinterView, TimestampMs),
    SuspendLookup(Seq<char>),
    Saving(PrinterShareView),
    Done(core::result::Result<PrinterShareView, PrintErrorView>),
}

impl View for ShareFlow {
    type V = ShareFlowView;

    open spec fn view(&self) -> ShareFlowView {
        match *self {
            ShareFlow::PublishBindings(id) => ShareFlowView::PublishBindings(id@),
            ShareFlow::PublishPrinter(id, at) => ShareFlowView::PublishPrinter(id@, at),
            ShareFlow::PublishShare(id, printer, at) => ShareFlowView::PublishShare(
                id@,
                printer@,
                at,
            ),
            ShareFlow::SuspendLookup(id) => ShareFlowView::SuspendLookup(id@),
            ShareFlow::Saving(share) => ShareFlowView::Saving(share@),
            ShareFlow::Done(result) => ShareFlowView::Done(outcome(result)),
        }
    }
}

/// The share that publishing `printer` yields, given the one of before; a new
/// share is called `fresh`.
pub open spec fn republished(
    known: Option<PrinterShareView>,
    printer: LocalPrinterView,
    at: TimestampMs,
    fresh: Seq<char>,
) -> core::result::Result<PrinterShareView, PrintErrorView> {
    match known {
        Some(share) => match share.resumed(at) {
            Err(error) => Err(error),
            Ok(share) => match PrinterShareView::update_validation(
                printer.display_name,
                printer.capabilities,
            ) {
                Err(error) => Err(error),
                Ok(_) => Ok(share.described_as(printer.display_name, printer.capabilities, at)),
            },
        },
        None => match printer.validation() {
            Err(error) => Err(error),
            Ok(_) => Ok(published_share(fresh, printer, at)),
        },
    }
}

impl ShareFlowView {
    /// What the flow asks for.
    pub open spec fn action(self) -> ShareActionView {
        match self {
            ShareFlowView::PublishBindings(_) => ShareActionView::ListBindings,
            ShareFlowView::PublishPrinter(id, _) => ShareActionView::FindPrinter(id),
            ShareFlowView::PublishShare(id, _, _) => ShareActionView::FindByPrinter(id),
            ShareFlowView::SuspendLookup(id) => ShareActionView::Find(id),
            ShareFlowView::Saving(share) => ShareActionView::Save(share),
            ShareFlowView::Done(_) => ShareActionView::Finished,
        }
    }

    /// The flow after `reply`. An answer to another question changes nothing.
    pub open spec fn resumed(
        self,
        reply: ShareReplyView,
        now_ms: TimestampMs,
        fresh: Seq<char>,
    ) -> Self {
        match (self, reply) {
            (ShareFlowView::PublishBindings(_), ShareReplyView::Bindings(Err(error))) => {
                ShareFlowView::Done(Err(error))
            },
            (ShareFlowView::PublishBindings(id), ShareReplyView::Bindings(Ok(bindings))) => {
                if leads_elsewhere(id, ids_of(bindings)) {
                    ShareFlowView::Done(
                        Err(
                            PrintErrorView::Invalid(
                                "ArcRelay-installed remote printers cannot be shared again"@,
                            ),
                        ),
                    )
                } else {
                    ShareFlowView::PublishPrinter(id, now_ms)
                }
            },
            (ShareFlowView::PublishPrinter(_, _), ShareReplyView::Printer(Err(error))) => {
                ShareFlowView::Done(Err(error))
            },
            (ShareFlowView::PublishPrinter(id, at), ShareReplyView::Printer(Ok(found))) => {
                match found {
                    Some(printer) => ShareFlowView::PublishShare(id, printer, at),
                    None => ShareFlowView::Done(Err(PrintErrorView::NotFound(id))),
                }
            },
            (ShareFlowView::PublishShare(_, _, _), ShareReplyView::Share(Err(error))) => {
                ShareFlowView::Done(Err(error))
            },
            (ShareFlowView::PublishShare(_, printer, at), ShareReplyView::Share(Ok(known))) => {
                match republished(known, printer, at, fresh) {
                    Ok(share) => ShareFlowView::Saving(
                        PrinterShareView { scope: ShareScope::PairedDevices, ..share },
                    ),
                    Err(error) => ShareFlowView::Done(Err(error)),
                }
            },
            (ShareFlowView::SuspendLookup(_), ShareReplyView::Share(Err(error))) => {
                ShareFlowView::Done(Err(error))
            },
            (ShareFlowView::SuspendLookup(id), ShareReplyView::Share(Ok(found))) => match found {
                None => ShareFlowView::Done(Err(PrintErrorView::NotFound(id))),
                Some(share) => match share.suspended(now_ms) {
                    Ok(share) => ShareFlowView::Saving(share),
                    Err(error) => ShareFlowView::Done(Err(error)),
                },
            },
            (ShareFlowView::Saving(share), ShareReplyView::Saved(Ok(_))) => ShareFlowView::Done(
                Ok(share),
            ),
            (ShareFlowView::Saving(_), ShareReplyView::Saved(Err(error))) => ShareFlowView::Done(
                Err(error),
            ),
            _ => self,
        }
    }
}

fn republish(known: Option<PrinterShare>, printer: LocalPrinter, at: TimestampMs) -> (r: PrintResult<
    PrinterShare,
>)
    ensures
        exists|fresh: Seq<char>|
            is_random_text(fresh) && outcome(r) == #[trigger] republished(
                opt(known),
                printer@,
                at,
                fresh,
            ),
{
    let ghost any = lemma_random_text_exists();
    match known {
        Some(found) => {
            let mut share = found;
            match share.resume(at) {
                Ok(_) => {},
                Err(error) => {
                    let r = Err(error);
                    assert(outcome(r) == republished(opt(known), printer@, at, any));
                    return r;
                },
            }
            let r = match share.update_capabilities(printer.display_name, printer.capabilities, at) {
                Ok(_) => Ok(share),
                Err(error) => Err(error),
            };
            assert(outcome(r) == republished(opt(known), printer@, at, any));
            r
        },
        None => {
            let r = PrinterShare::publish(printer, at);
            let ghost fresh = if r is Ok {
                r->Ok_0@.id
            } else {
                any
            };
            assert(outcome(r) == republished(opt(known), printer@, at, fresh));
            r
        },
    }
}

impl ShareFlow {
    /// What the flow asks for.
    pub fn action(&self) -> (r: ShareAction<'_>)
        ensures
            r@ == self@.action(),
    {
        match self {
            ShareFlow::PublishBindings(_) => ShareAction::ListBindings,
            ShareFlow::PublishPrinter(id, _) => ShareAction::FindPrinter(id),
            ShareFlow::PublishShare(id, _, _) => ShareAction::FindByPrinter(id),
            ShareFlow::SuspendLookup(id) => ShareAction::Find(id),
            ShareFlow::Saving(share) => ShareAction::Save(share),
            ShareFlow::Done(_) => ShareAction::Finished,
        }
    }

    /// Takes an answer and moves on.
    pub fn resume(self, reply: ShareReply, now_ms: TimestampMs) -> (r: Self)
        ensures
            exists|fresh: Seq<char>|
                is_random_text(fresh) && r@ == #[trigger] self@.resumed(reply@, now_ms, fresh),
    {
        let ghost before = self@;
        let ghost answer = reply@;
        let ghost any = lemma_random_text_exists();
        match (self, reply) {
            (ShareFlow::PublishShare(_, printer, at), ShareReply::Share(Ok(known))) => {
                let published = republish(known, printer, at);
                let ghost fresh = choose|fresh: Seq<char>|
                    is_random_text(fresh) && outcome(published) == #[trigger] republished(
                        opt(known),
                        printer@,
                        at,
                        fresh,
                    );
                let r = match published {
                    Ok(new) => {
                        let mut share = new;
                        share.scope = ShareScope::PairedDevices;
                        ShareFlow::Saving(share)
                    },
                    Err(error) => ShareFlow::Done(Err(error)),
                };
                assert(r@ == before.resumed(answer, now_ms, fresh));
                r
            },
            (flow, reply) => {
                let r = flow.resume_known(reply, now_ms);
                assert(r@ == before.resumed(answer, now_ms, any));
                r
            },
        }
    }

    fn resume_known(self, reply: ShareReply, now_ms: TimestampMs) -> (r: Self)
        requires
            !(self is PublishShare && reply matches ShareReply::Share(Ok(_))),
        ensures
            forall|fresh: Seq<char>| r@ == #[trigger] self@.resumed(reply@, now_ms, fresh),
    {
        match (self, reply) {
            (ShareFlow::PublishBindings(id), ShareReply::Bindings(listed)) => match listed {
                Err(error) => ShareFlow::Done(Err(error)),
                Ok(bindings) => {
                    let ids = remote_queue_ids(&bindings);
                    if is_remote_queue(&id, &ids) {
                        ShareFlow::Done(
                            Err(
                                PrintError::Invalid(
                                    "ArcRelay-installed remote printers cannot be shared again".to_string(),
                                ),
                            ),
                        )
                    } else {
                        ShareFlow::PublishPrinter(id, now_ms)
                    }
                },
            },
            (ShareFlow::PublishPrinter(id, at), ShareReply::Printer(found)) => match found {
                Err(error) => ShareFlow::Done(Err(error)),
                Ok(Some(printer)) => ShareFlow::PublishShare(id, printer, at),
                Ok(None) => ShareFlow::Done(Err(PrintError::NotFound(id.to_string()))),
            },
            (ShareFlow::PublishShare(_, _, _), ShareReply::Share(Err(error))) => ShareFlow::Done(
                Err(error),
            ),
            (ShareFlow::SuspendLookup(id), ShareReply::Share(found)) => match found {
                Err(error) => ShareFlow::Done(Err(error)),
                Ok(None) => ShareFlow::Done(Err(PrintError::NotFound(id.to_string()))),
                Ok(Some(known)) => {
                    let mut share = known;
                    match share.suspend(now_ms) {
                        Ok(_) => ShareFlow::Saving(share),
                        Err(error) => ShareFlow::Done(Err(error)),
                    }
                },
            },
            (ShareFlow::Saving(share), ShareReply::Saved(saved)) => match saved {
                Ok(_) => ShareFlow::Done(Ok(share)),
                Err(error) => ShareFlow::Done(Err(error)),
            },
            (other, _) => other,
        }
    }
}

/// The status of the printer called `id`: what the last printer of that name
/// reports, or offline where there is none.
pub open spec fn status_of(printers: Seq<LocalPrinterView>, id: Seq<char>) -> PrinterStatus
    decreases printers.len(),
{
    if printers.len() == 0 {
        PrinterStatus::Offline
    } else if printers.last().id == id {
        printers.last().status
    } else {
        status_of(printers.drop_last(), id)
    }
}

fn find_status(printers: &Vec<LocalPrinter>, id: &LocalPrinterId) -> (r: PrinterStatus)
    ensures
        r == status_of(views(printers@), id@),
{
    let ghost all = views(printers@);
    let mut i: usize = printers.len();
    assert(all.take(i as int) =~= all);
    while i > 0
        invariant
            i <= printers@.len(),
            all == views(printers@),
            status_of(all, id@) == status_of(all.take(i as int), id@),
        decreases i,
    {
        assert(all.take(i as int).drop_last() =~= all.take(i - 1));
        assert(all.take(i as int).last() == printers@[i - 1]@);
        if printers[i - 1].id.same(id) {
            return printers[i - 1].status;
        }
        i -= 1;
    }
    PrinterStatus::Offline
}

/// A share as other devices see it.
pub open spec fn published_printer(
    source_device_id: Seq<char>,
    source_device_name: Seq<char>,
    printers: Seq<LocalPrinterView>,
    share: PrinterShareView,
) -> PublishedPrinterView {
    PublishedPrinterView {
        source_device_id,
        source_device_name,
        share_id: share.id,
        display_name: share.display_name,
        status: status_of(printers, share.local_printer_id),
        capabilities: share.capabilities,
        capability_revision: share.capability_revision,
    }
}

/// Shares that other devices may see.
pub open spec fn is_visible(share: PrinterShareView, ids: Set<Seq<char>>) -> bool {
    share.state == ShareState::Published && !leads_elsewhere(share.local_printer_id, ids)
}

/// The shares among `shares` that belong to this machine's own printers.
pub open spec fn own_shares(
    bindings: Seq<RemoteQueueBindingView>,
    shares: Seq<PrinterShareView>,
) -> Seq<PrinterShareView> {
    shares.filter(
        |share: PrinterShareView| !leads_elsewhere(share.local_printer_id, ids_of(bindings)),
    )
}

/// The printers among `printers` that are this machine's own.
pub open spec fn own_printers(
    bindings: Seq<RemoteQueueBindingView>,
    printers: Seq<LocalPrinterView>,
) -> Seq<LocalPrinterView> {
    printers.filter(|printer: LocalPrinterView| !leads_elsewhere(printer.id, ids_of(bindings)))
}

/// What other devices see of this machine.
pub open spec fn visible_printers(
    source_device_id: Seq<char>,
    source_device_name: Seq<char>,
    bindings: Seq<RemoteQueueBindingView>,
    printers: Seq<LocalPrinterView>,
    shares: Seq<PrinterShareView>,
) -> Seq<PublishedPrinterView> {
    shares.filter(|share: PrinterShareView| is_visible(share, ids_of(bindings))).map_values(
        |share: PrinterShareView|
            published_printer(source_device_id, source_device_name, printers, share),
    )
}

/// The printers that this machine publishes.
#[derive(Debug)]
pub struct PrinterShareService {
    hosting_supported: bool,
}

/// The first step of publishing a printer, where a machine can `host`.
pub open spec fn publication(host: bool, local_printer_id: Seq<char>) -> ShareFlowView {
    if host {
        ShareFlowView::PublishBindings(local_printer_id)
    } else {
        ShareFlowView::Done(
            Err(
                PrintErrorView::Backend(
                    "sharing local printers is not supported on this operating system yet"@,
                ),
            ),
        )
    }
}

/// What other devices see of a machine, where it can `host`.
pub open spec fn hosted_printers(
    host: bool,
    source_device_id: Seq<char>,
    source_device_name: Seq<char>,
    bindings: Seq<RemoteQueueBindingView>,
    printers: Seq<LocalPrinterView>,
    shares: Seq<PrinterShareView>,
) -> Seq<PublishedPrinterView> {
    if host {
        visible_printers(source_device_id, source_device_name, bindings, printers, shares)
    } else {
        seq![]
    }
}

impl PrinterShareService {
    /// Whether this machine can publish printers at all.
    pub closed spec fn hosts(&self) -> bool {
        self.hosting_supported
    }

    pub fn new(hosting_supported: bool) -> (r: Self)
        ensures
            r.hosts() == hosting_supported,
    {
        PrinterShareService { hosting_supported }
    }

    /// Whether this machine can publish printers at all.
    pub fn hosting_supported(&self) -> (r: bool)
        ensures
            r == self.hosts(),
    {
        self.hosting_supported
    }

    /// Publishes a printer.
    pub fn publish(&self, local_printer_id: &LocalPrinterId) -> (r: ShareFlow)
        ensures
            r@ == publication(self.hosts(), local_printer_id@),
    {
        if !self.hosting_supported {
            return ShareFlow::Done(
                Err(
                    PrintError::Backend(
                        "sharing local printers is not supported on this operating system yet".to_string(),
                    ),
                ),
            );
        }
        ShareFlow::PublishBindings(local_printer_id.clone())
    }

    /// Withdraws a share for the time being.
    pub fn suspend(&self, id: &PrinterShareId) -> (r: ShareFlow)
        ensures
            r@ == ShareFlowView::SuspendLookup(id@),
    {
        ShareFlow::SuspendLookup(id.clone())
    }

    /// The stored shares that belong to this machine's own printers.
    pub fn list(&self, bindings: &Vec<RemoteQueueBinding>, shares: &Vec<PrinterShare>) -> (r: Vec<
        PrinterShare,
    >)
        ensures
            views(r@) == own_shares(views(bindings@), views(shares@)),
    {
        let ids = remote_queue_ids(bindings);
        let ghost all = views(shares@);
        let ghost keep = |share: PrinterShareView|
            !leads_elsewhere(share.local_printer_id, ids_of(views(bindings@)));
        let mut out: Vec<PrinterShare> = Vec::new();
        let mut i: usize = 0;
        proof {
            lemma_filter_none(all, keep);
            assert(views(out@) =~= seq![]);
        }
        while i < shares.len()
            invariant
                i <= shares@.len(),
                all == views(shares@),
                ids@ == ids_of(views(bindings@)),
                keep == (|share: PrinterShareView|
                    !leads_elsewhere(share.local_printer_id, ids_of(views(bindings@)))),
                views(out@) == all.take(i as int).filter(keep),
            decreases shares@.len() - i,
        {
            let share = &shares[i];
            let ghost before = views(out@);
            proof {
                lemma_filter_step(all, i as int, keep);
            }
            if !is_remote_queue(&share.local_printer_id, &ids) {
                out.push(share.clone());
                assert(views(out@) =~= before.push(all[i as int]));
            }
            i += 1;
        }
        assert(all.take(i as int) =~= all);
        out
    }

    /// The printers of the operating system that are this machine's own.
    pub fn list_local_printers(
        &self,
        bindings: &Vec<RemoteQueueBinding>,
        printers: &Vec<LocalPrinter>,
    ) -> (r: Vec<LocalPrinter>)
        ensures
            views(r@) == own_printers(views(bindings@), views(printers@)),
    {
        let ids = remote_queue_ids(bindings);
        let ghost all = views(printers@);
        let ghost keep = |printer: LocalPrinterView|
            !leads_elsewhere(printer.id, ids_of(views(bindings@)));
        let mut out: Vec<LocalPrinter> = Vec::new();
        let mut i: usize = 0;
        proof {
            lemma_filter_none(all, keep);
            assert(views(out@) =~= seq![]);
        }
        while i < printers.len()
            invariant
                i <= printers@.len(),
                all == views(printers@),
                ids@ == ids_of(views(bindings@)),
                keep == (|printer: LocalPrinterView|
                    !leads_elsewhere(printer.id, ids_of(views(bindings@)))),
                views(out@) == all.take(i as int).filter(keep),
            decreases printers@.len() - i,
        {
            let printer = &printers[i];
            let ghost before = views(out@);
            proof {
                lemma_filter_step(all, i as int, keep);
            }
            if !is_remote_queue(&printer.id, &ids) {
                out.push(printer.clone());
                assert(views(out@) =~= before.push(all[i as int]));
            }
            i += 1;
        }
        assert(all.take(i as int) =~= all);
        out
    }

    /// What other devices see of this machine, given its queues, its printers
    /// and its shares.
    pub fn list_published(
        &self,
        source_device_id: &DeviceId,
        source_device_name: &str,
        bindings: &Vec<RemoteQueueBinding>,
        printers: &Vec<LocalPrinter>,
        shares: &Vec<PrinterShare>,
    ) -> (r: Vec<PublishedPrinter>)
        ensures
            views(r@) == hosted_printers(
                self.hosts(),
                source_device_id@,
                source_device_name@,
                views(bindings@),
                views(printers@),
                views(shares@),
            ),
    {
        let mut out: Vec<PublishedPrinter> = Vec::new();
        assert(views(out@) =~= seq![]);
        if !self.hosting_supported {
            return out;
        }
        let ids = remote_queue_ids(bindings);
        let ghost all = views(shares@);
        let ghost local = views(printers@);
        let ghost keep = |share: PrinterShareView| is_visible(share, ids_of(views(bindings@)));
        let ghost show = |share: PrinterShareView|
            published_printer(source_device_id@, source_device_name@, local, share);
        let mut i: usize = 0;
        proof {
            lemma_filter_none(all, keep);
            assert(views(out@) =~= all.take(0).filter(keep).map_values(show));
        }
        while i < shares.len()
            invariant
                i <= shares@.len(),
                all == views(shares@),
                local == views(printers@),
                ids@ == ids_of(views(bindings@)),
                keep == (|share: PrinterShareView| is_visible(share, ids_of(views(bindings@)))),
                show == (|share: PrinterShareView|
                    published_printer(source_device_id@, source_device_name@, local, share)),
                views(out@) == all.take(i as int).filter(keep).map_values(show),
            decreases shares@.len() - i,
        {
            let share = &shares[i];
            let ghost before = views(out@);
            proof {
                lemma_filter_step(all, i as int, keep);
            }
            if share.state == ShareState::Published && !is_remote_queue(
                &share.local_printer_id,
                &ids,
            ) {
                let printer = PublishedPrinter {
                    source_device_id: source_device_id.clone(),
                    source_device_name: source_device_name.to_string(),
                    share_id: share.id.clone(),
                    display_name: share.display_name.clone(),
                    status: find_status(printers, &share.local_printer_id),
                    capabilities: share.capabilities.clone(),
                    capability_revision: share.capability_revision,
                };
                assert(printer@ == show(all[i as int]));
                out.push(printer);
                assert(views(out@) =~= before.push(show(all[i as int])));
                assert(views(out@) =~= all.take(i + 1).filter(keep).map_values(show));
            }
            i += 1;
        }
        assert(all.take(i as int) =~= all);
        out
    }
}

/// A queue that leads to another device is never published: the flow ends
/// with an error as soon as the queues are known.
pub proof fn law_remote_queues_are_not_shared(
    id: Seq<char>,
    bindings: Seq<RemoteQueueBindingView>,
    now_ms: TimestampMs,
    fresh: Seq<char>,
)
    requires
        leads_elsewhere(id, ids_of(bindings)),
    ensures
        ShareFlowView::PublishBindings(id).resumed(
            ShareReplyView::Bindings(Ok(bindings)),
            now_ms,
            fresh,
        ) matches ShareFlowView::Done(result) && result is Err,
{
}

/// Nothing that other devices see leads to yet another device, and all of it
/// is published.
pub proof fn law_remote_queues_are_not_listed(
    source_device_id: Seq<char>,
    source_device_name: Seq<char>,
    bindings: Seq<RemoteQueueBindingView>,
    printers: Seq<LocalPrinterView>,
    shares: Seq<PrinterShareView>,
    i: int,
)
    requires
        0 <= i < visible_printers(
            source_device_id,
            source_device_name,
            bindings,
            printers,
            shares,
        ).len(),
    ensures
        exists|share: PrinterShareView|
            shares.contains(share) && #[trigger] is_visible(share, ids_of(bindings))
                && visible_printers(
                source_device_id,
                source_device_name,
                bindings,
                printers,
                shares,
            )[i] == published_printer(source_device_id, source_device_name, printers, share),
{
    let keep = |share: PrinterShareView| is_visible(share, ids_of(bindings));
    lemma_filter_kept(shares, keep, i);
    let share = shares.filter(keep)[i];
    assert(is_visible(share, ids_of(bindings)));
}

/// Every queue that was installed for a printer of another device is
/// recognised, by its name and by its identifier.
pub proof fn law_bound_queues_are_recognized(bindings: Seq<RemoteQueueBindingView>, i: int)
    requires
        0 <= i < bindings.len(),
    ensures
        leads_elsewhere(bindings[i].system_queue_name, ids_of(bindings)),
        bindings[i].system_queue_id matches Some(id) ==> leads_elsewhere(id, ids_of(bindings)),
{
    assert(names_queue(bindings[i], bindings[i].system_queue_name));
    if let Some(id) = bindings[i].system_queue_id {
        assert(names_queue(bindings[i], id));
    }
}

/// Publishing ends in a published share, unless it fails.
pub proof fn law_publishing_publishes(
    id: Seq<char>,
    printer: LocalPrinterView,
    at: TimestampMs,
    known: Option<PrinterShareView>,
    now_ms: TimestampMs,
    fresh: Seq<char>,
)
    ensures
        ShareFlowView::PublishShare(id, printer, at).resumed(
            ShareReplyView::Share(Ok(known)),
            now_ms,
            fresh,
        ) matches ShareFlowView::Saving(share) ==> {
            &&& share.state == ShareState::Published
            &&& share.display_name == printer.display_name
            &&& share.capabilities == printer.capabilities
            &&& share.scope == ShareScope::PairedDevices
        },
{
}

/// A valid printer of this machine that was never published is published
/// under a fresh identifier.
pub proof fn law_own_printers_can_be_published(
    id: Seq<char>,
    bindings: Seq<RemoteQueueBindingView>,
    printer: LocalPrinterView,
    t1: TimestampMs,
    t2: TimestampMs,
    t3: TimestampMs,
    t4: TimestampMs,
    fresh: Seq<char>,
)
    requires
        !leads_elsewhere(id, ids_of(bindings)),
        printer.validation() is Ok,
    ensures
        ShareFlowView::PublishBindings(id).resumed(
            ShareReplyView::Bindings(Ok(bindings)),
            t1,
            fresh,
        ).resumed(ShareReplyView::Printer(Ok(Some(printer))), t2, fresh).resumed(
            ShareReplyView::Share(Ok(None)),
            t3,
            fresh,
        ).resumed(ShareReplyView::Saved(Ok(())), t4, fresh) == ShareFlowView::Done(
            Ok(published_share(fresh, printer, t1)),
        ),
{
}

} // verus!
