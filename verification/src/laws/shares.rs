//! What a device shares with others.
use vstd::prelude::*;

use crate::application::share_service::{
    ids_of, leads_elsewhere, names_queue, own_printers, own_shares, status_of, visible_printers,
    ShareActionView, ShareFlowView, ShareReplyView,
};
use crate::domain::TimestampMs;
use crate::domain::capability::PrinterCapabilitiesView;
use crate::domain::printer::{LocalPrinterView, PrinterStatus};
use crate::domain::queue_binding::RemoteQueueBindingView;
use crate::domain::share::{PrinterShareView, ShareScope, ShareState};
use crate::error::PrintErrorView;
use crate::model::lemma_filter_single;
use crate::text::is_blank;

verus! {

/// Whether a local queue was made for a printer of another device: its name
/// begins with "ArcRelay_", or one of the bindings has it as the name or the
/// identifier of its queue.
pub open spec fn is_foreign(id: Seq<char>, bindings: Seq<RemoteQueueBindingView>) -> bool {
    ||| id.len() >= 9 && id.take(9) == "ArcRelay_"@
    ||| exists|i: int|
        0 <= i < bindings.len() && ((#[trigger] bindings[i]).system_queue_name == id
            || bindings[i].system_queue_id == Some(id))
}

/// A queue is recognised as foreign by its name and by what the bindings say,
/// and by nothing else.
pub proof fn law_foreign_queues_are_known(
    id: Seq<char>,
    bindings: Seq<RemoteQueueBindingView>,
)
    ensures
        leads_elsewhere(id, ids_of(bindings)) == is_foreign(id, bindings),
{
    reveal_strlit("ArcRelay_");
    if id.len() >= 9 {
        assert(id.take(9) =~= id.subrange(0, 9));
    }
    if ids_of(bindings).contains(id) {
        let i = choose|i: int| 0 <= i < bindings.len() && names_queue(bindings[i], id);
        assert(bindings[i].system_queue_name == id || bindings[i].system_queue_id == Some(id));
    }
    if exists|i: int|
        0 <= i < bindings.len() && ((#[trigger] bindings[i]).system_queue_name == id
            || bindings[i].system_queue_id == Some(id)) {
        let i = choose|i: int|
            0 <= i < bindings.len() && ((#[trigger] bindings[i]).system_queue_name == id
                || bindings[i].system_queue_id == Some(id));
        assert(names_queue(bindings[i], id));
    }
}

/// The status of a printer is what the printer of that identifier reports,
/// where no two have the same; without one it is offline.
pub proof fn law_status_is_reported(printers: Seq<LocalPrinterView>, id: Seq<char>, i: int)
    requires
        forall|a: int, b: int|
            0 <= a < b < printers.len() ==> (#[trigger] printers[a]).id != (
            #[trigger] printers[b]).id,
    ensures
        0 <= i < printers.len() && printers[i].id == id ==> status_of(printers, id)
            == printers[i].status,
        (forall|a: int| 0 <= a < printers.len() ==> (#[trigger] printers[a]).id != id)
            ==> status_of(printers, id) == PrinterStatus::Offline,
    decreases printers.len(),
{
    if printers.len() > 0 {
        let most = printers.drop_last();
        assert forall|a: int, b: int| 0 <= a < b < most.len() implies (#[trigger] most[a]).id != (
        #[trigger] most[b]).id by {
            assert(most[a] == printers[a] && most[b] == printers[b]);
        }
        law_status_is_reported(most, id, i);
        if 0 <= i < most.len() {
            assert(most[i] == printers[i]);
            assert(printers[i].id != printers[printers.len() - 1].id);
        }
        if forall|a: int| 0 <= a < printers.len() ==> (#[trigger] printers[a]).id != id {
            assert(printers[printers.len() - 1].id != id);
            assert forall|a: int| 0 <= a < most.len() implies (#[trigger] most[a]).id != id by {
                assert(most[a] == printers[a]);
            }
        }
    }
}

/// A share that other devices may see is the share of one of this machine's
/// own printers that is published.
pub open spec fn may_be_seen(
    share: PrinterShareView,
    bindings: Seq<RemoteQueueBindingView>,
) -> bool {
    share.state == ShareState::Published && !is_foreign(share.local_printer_id, bindings)
}

/// Of one share other devices see, if they may see it, its name, its
/// capabilities and their revision, this device's name and the status that its
/// printer reports; otherwise they see nothing.
pub proof fn law_published_share_is_seen(
    source_device_id: Seq<char>,
    source_device_name: Seq<char>,
    bindings: Seq<RemoteQueueBindingView>,
    printers: Seq<LocalPrinterView>,
    share: PrinterShareView,
    i: int,
)
    requires
        forall|a: int, b: int|
            0 <= a < b < printers.len() ==> (#[trigger] printers[a]).id != (
            #[trigger] printers[b]).id,
    ensures
        ({
            let seen = visible_printers(
                source_device_id,
                source_device_name,
                bindings,
                printers,
                seq![share],
            );
            if may_be_seen(share, bindings) {
                &&& seen.len() == 1
                &&& seen[0].source_device_id == source_device_id
                &&& seen[0].source_device_name == source_device_name
                &&& seen[0].share_id == share.id
                &&& seen[0].display_name == share.display_name
                &&& seen[0].capabilities == share.capabilities
                &&& seen[0].capability_revision == share.capability_revision
                &&& 0 <= i < printers.len() && printers[i].id == share.local_printer_id
                    ==> seen[0].status == printers[i].status
                &&& (forall|a: int|
                    0 <= a < printers.len() ==> (#[trigger] printers[a]).id
                        != share.local_printer_id) ==> seen[0].status == PrinterStatus::Offline
            } else {
                seen.len() == 0
            }
        }),
{
    law_foreign_queues_are_known(share.local_printer_id, bindings);
    law_status_is_reported(printers, share.local_printer_id, i);
    let keep = |share: PrinterShareView|
        crate::application::share_service::is_visible(share, ids_of(bindings));
    lemma_filter_single(share, keep);
}

/// What other devices see of several shares is what they see of each, in
/// order.
pub proof fn law_shares_are_seen_in_order(
    source_device_id: Seq<char>,
    source_device_name: Seq<char>,
    bindings: Seq<RemoteQueueBindingView>,
    printers: Seq<LocalPrinterView>,
    shares: Seq<PrinterShareView>,
)
    requires
        shares.len() > 0,
    ensures
        visible_printers(source_device_id, source_device_name, bindings, printers, shares)
            == visible_printers(
            source_device_id,
            source_device_name,
            bindings,
            printers,
            shares.drop_last(),
        ) + visible_printers(
            source_device_id,
            source_device_name,
            bindings,
            printers,
            seq![shares.last()],
        ),
        visible_printers(
            source_device_id,
            source_device_name,
            bindings,
            printers,
            Seq::<PrinterShareView>::empty(),
        ).len() == 0,
{
    let keep = |share: PrinterShareView|
        crate::application::share_service::is_visible(share, ids_of(bindings));
    reveal(Seq::filter);
    lemma_filter_single(shares.last(), keep);
    assert(visible_printers(source_device_id, source_device_name, bindings, printers, shares)
        =~= visible_printers(
        source_device_id,
        source_device_name,
        bindings,
        printers,
        shares.drop_last(),
    ) + visible_printers(
        source_device_id,
        source_device_name,
        bindings,
        printers,
        seq![shares.last()],
    ));
}

/// The stored shares and the printers of this machine are listed, in order,
/// without those that lead to another device.
pub proof fn law_own_printers_are_listed(
    bindings: Seq<RemoteQueueBindingView>,
    shares: Seq<PrinterShareView>,
    printers: Seq<LocalPrinterView>,
)
    ensures
        own_shares(bindings, shares) == shares.filter(
            |share: PrinterShareView| !is_foreign(share.local_printer_id, bindings),
        ),
        own_printers(bindings, printers) == printers.filter(
            |printer: LocalPrinterView| !is_foreign(printer.id, bindings),
        ),
{
    let a = |share: PrinterShareView| !leads_elsewhere(share.local_printer_id, ids_of(bindings));
    let b = |share: PrinterShareView| !is_foreign(share.local_printer_id, bindings);
    assert forall|share: PrinterShareView| #[trigger] a(share) == b(share) by {
        law_foreign_queues_are_known(share.local_printer_id, bindings);
    }
    assert(a =~= b);
    let c = |printer: LocalPrinterView| !leads_elsewhere(printer.id, ids_of(bindings));
    let d = |printer: LocalPrinterView| !is_foreign(printer.id, bindings);
    assert forall|printer: LocalPrinterView| #[trigger] c(printer) == d(printer) by {
        law_foreign_queues_are_known(printer.id, bindings);
    }
    assert(c =~= d);
}

/// Whether a printer can be shared: it has a name and a sheet, makes copies
/// and takes some kind of document.
pub open spec fn shareable(name: Seq<char>, capabilities: PrinterCapabilitiesView) -> bool {
    &&& !is_blank(name)
    &&& capabilities.media_sizes.len() > 0
    &&& capabilities.max_copies > 0
    &&& capabilities.accepted_document_types.len() > 0
}

/// A printer is published: one that leads to another device never, one that
/// is not there not either, and any other that can be shared under its name
/// and with its capabilities, for paired devices.
pub proof fn law_publishing(
    id: Seq<char>,
    bindings: Seq<RemoteQueueBindingView>,
    printer: LocalPrinterView,
    known: Option<PrinterShareView>,
    t1: TimestampMs,
    t2: TimestampMs,
    t3: TimestampMs,
    t4: TimestampMs,
    fresh: Seq<char>,
)
    ensures
        ({
            let start = ShareFlowView::PublishBindings(id);
            let bound = start.resumed(ShareReplyView::Bindings(Ok(bindings)), t1, fresh);
            let found = bound.resumed(ShareReplyView::Printer(Ok(Some(printer))), t2, fresh);
            let ready = found.resumed(ShareReplyView::Share(Ok(known)), t3, fresh);
            &&& start.action() == ShareActionView::ListBindings
            &&& is_foreign(id, bindings) ==> bound == ShareFlowView::Done(
                Err(
                    PrintErrorView::Invalid(
                        "ArcRelay-installed remote printers cannot be shared again"@,
                    ),
                ),
            )
            &&& !is_foreign(id, bindings) ==> {
                &&& bound.action() == ShareActionView::FindPrinter(id)
                &&& bound.resumed(ShareReplyView::Printer(Ok(None)), t2, fresh)
                    == ShareFlowView::Done(Err(PrintErrorView::NotFound(id)))
                &&& found.action() == ShareActionView::FindByPrinter(id)
                &&& (shareable(printer.display_name, printer.capabilities) && !(known matches Some(
                    share,
                ) && share.state == ShareState::Removed)) == (ready.action() is Save)
                &&& ready.action() matches ShareActionView::Save(share) ==> {
                    &&& ready.resumed(ShareReplyView::Saved(Ok(())), t4, fresh)
                        == ShareFlowView::Done(Ok(share))
                    &&& share.state == ShareState::Published
                    &&& share.scope == ShareScope::PairedDevices
                    &&& share.display_name == printer.display_name
                    &&& share.capabilities == printer.capabilities
                    &&& match known {
                        Some(before) => {
                            let changed = before.display_name != printer.display_name
                                || before.capabilities != printer.capabilities;
                            &&& share.id == before.id
                            &&& share.local_printer_id == before.local_printer_id
                            &&& share.created_at_ms == before.created_at_ms
                            &&& share.updated_at_ms == if changed || before.state
                                == ShareState::Suspended {
                                t1
                            } else {
                                before.updated_at_ms
                            }
                            &&& before.capability_revision < u64::MAX ==> share.capability_revision
                                == before.capability_revision + if changed {
                                1int
                            } else {
                                0
                            }
                        },
                        None => {
                            &&& share.id == fresh
                            &&& share.local_printer_id == printer.id
                            &&& share.capability_revision == 1
                            &&& share.created_at_ms == t1
                            &&& share.updated_at_ms == t1
                        },
                    }
                }
            }
        }),
{
    law_foreign_queues_are_known(id, bindings);
}

/// A share is withdrawn for the time being: it is stored as suspended and is
/// otherwise as before; one that was removed is refused, and one that is not
/// there is not found.
pub proof fn law_suspending(
    id: Seq<char>,
    share: PrinterShareView,
    t1: TimestampMs,
    t2: TimestampMs,
    fresh: Seq<char>,
)
    ensures
        ({
            let start = ShareFlowView::SuspendLookup(id);
            let found = start.resumed(ShareReplyView::Share(Ok(Some(share))), t1, fresh);
            let after = PrinterShareView {
                state: ShareState::Suspended,
                updated_at_ms: if share.state == ShareState::Published {
                    t1
                } else {
                    share.updated_at_ms
                },
                ..share
            };
            &&& start.action() == ShareActionView::Find(id)
            &&& start.resumed(ShareReplyView::Share(Ok(None)), t1, fresh) == ShareFlowView::Done(
                Err(PrintErrorView::NotFound(id)),
            )
            &&& share.state == ShareState::Removed ==> (found matches ShareFlowView::Done(result)
                && result is Err)
            &&& share.state != ShareState::Removed ==> found.action() == ShareActionView::Save(
                after,
            ) && found.resumed(ShareReplyView::Saved(Ok(())), t2, fresh) == ShareFlowView::Done(
                Ok(after),
            )
        }),
{
}

/// A share that was withdrawn for good stays so, and is otherwise as before.
pub proof fn law_removing(share: PrinterShareView, now_ms: TimestampMs)
    ensures
        share.removed(now_ms) == (PrinterShareView {
            state: ShareState::Removed,
            updated_at_ms: now_ms,
            ..share
        }),
{
}

} // verus!
