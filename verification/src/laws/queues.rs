//! What becomes of the system queues of printers on other devices.
use vstd::prelude::*;

use crate::application::ports::SystemQueueSpecView;
use crate::application::queue_service::{
    InstallFlowView, QueueActionView, QueueReplyView, RemoveFlowView,
};
use crate::domain::TimestampMs;
use crate::domain::printer::PublishedPrinterView;
use crate::domain::queue_binding::{QueueBindingState, RemoteQueueBindingView};
use crate::error::PrintErrorView;
use crate::text::is_blank;

verus! {

/// A printer is looked up under its device and its share; without a queue it
/// gets a binding of its own, which says so and is recorded, unless it would
/// have no name.
pub proof fn law_new_queues_are_recorded(
    printer: PublishedPrinterView,
    queue_name: Seq<char>,
    ipp_uri: Seq<char>,
    now_ms: TimestampMs,
    fresh: Seq<char>,
)
    ensures
        ({
            let flow = InstallFlowView::Lookup { printer, queue_name, ipp_uri };
            let next = flow.resumed(QueueReplyView::Binding(Ok(None)), now_ms, fresh);
            &&& flow.action() == QueueActionView::FindRemote(
                printer.source_device_id,
                printer.share_id,
            )
            &&& is_blank(queue_name) ==> (next matches InstallFlowView::Done(Err(error)) && error
                is Invalid)
            &&& !is_blank(queue_name) ==> (next.action() matches QueueActionView::Save(binding) && {
                &&& binding.id == fresh
                &&& binding.remote_device_id == printer.source_device_id
                &&& binding.printer_share_id == printer.share_id
                &&& binding.system_queue_name == queue_name
                &&& binding.system_queue_id is None
                &&& binding.state == QueueBindingState::Installing
                &&& binding.auto_reconnect
                &&& binding.failure_message is None
                &&& binding.created_at_ms == now_ms && binding.updated_at_ms == now_ms
            })
        }),
{
}

/// A queue whose installation failed is installed again under its old binding;
/// one that is being removed is not; any other is given back as it is.
pub proof fn law_known_queues_are_taken_up(
    printer: PublishedPrinterView,
    queue_name: Seq<char>,
    ipp_uri: Seq<char>,
    binding: RemoteQueueBindingView,
    now_ms: TimestampMs,
    fresh: Seq<char>,
)
    ensures
        ({
            let flow = InstallFlowView::Lookup { printer, queue_name, ipp_uri };
            let next = flow.resumed(QueueReplyView::Binding(Ok(Some(binding))), now_ms, fresh);
            match binding.state {
                QueueBindingState::Failed => next.action() matches QueueActionView::Save(again) && {
                    &&& again.state == QueueBindingState::Installing
                    &&& again.failure_message is None && again.system_queue_id is None
                    &&& again.updated_at_ms == now_ms
                    &&& again.id == binding.id
                    &&& again.remote_device_id == binding.remote_device_id
                    &&& again.printer_share_id == binding.printer_share_id
                    &&& again.system_queue_name == binding.system_queue_name
                    &&& again.created_at_ms == binding.created_at_ms
                },
                QueueBindingState::Removing => next matches InstallFlowView::Done(Err(error))
                    && error is InvalidState,
                QueueBindingState::Installing
                | QueueBindingState::Ready
                | QueueBindingState::SourceOffline => next == InstallFlowView::Done(Ok(binding)),
            }
        }),
{
}

/// A binding that was recorded is set up under its name, at the address and
/// for the printer that were given.
pub proof fn law_recorded_queues_are_set_up(
    binding: RemoteQueueBindingView,
    printer: PublishedPrinterView,
    ipp_uri: Seq<char>,
    now_ms: TimestampMs,
    fresh: Seq<char>,
)
    ensures
        (InstallFlowView::Recording { binding, printer, ipp_uri }).resumed(
            QueueReplyView::Saved(Ok(())),
            now_ms,
            fresh,
        ).action() matches QueueActionView::Install(spec) && spec.queue_name
            == binding.system_queue_name && spec.ipp_uri == ipp_uri && spec.printer == printer,
{
}

/// What the operating system says of the queue is recorded and given back:
/// its identifier, or the failure. Nothing else of the binding changes.
pub proof fn law_installation_is_reported(
    binding: RemoteQueueBindingView,
    spec: SystemQueueSpecView,
    installed: core::result::Result<Seq<char>, PrintErrorView>,
    t1: TimestampMs,
    t2: TimestampMs,
    fresh: Seq<char>,
)
    requires
        binding.state == QueueBindingState::Installing,
    ensures
        ({
            let flow = InstallFlowView::Installing { binding, spec };
            let next = flow.resumed(QueueReplyView::Installed(installed), t1, fresh);
            next.action() matches QueueActionView::Save(after) && {
                &&& match installed {
                    Ok(queue) => after.state == QueueBindingState::Ready && after.system_queue_id
                        == Some(queue) && after.failure_message is None,
                    Err(error) => after.state == QueueBindingState::Failed
                        && after.failure_message == Some(error.text()) && after.system_queue_id
                        == binding.system_queue_id,
                }
                &&& after.updated_at_ms == t1 && after.created_at_ms == binding.created_at_ms
                &&& after.id == binding.id
                &&& after.remote_device_id == binding.remote_device_id
                &&& after.printer_share_id == binding.printer_share_id
                &&& after.system_queue_name == binding.system_queue_name
                &&& after.auto_reconnect == binding.auto_reconnect
                &&& next.resumed(QueueReplyView::Saved(Ok(())), t2, fresh)
                    == InstallFlowView::Done(Ok(after))
            }
        }),
{
}

/// An installation ends with the first failure to look up or to record.
pub proof fn law_installation_stops_at_failure(
    flow: InstallFlowView,
    error: PrintErrorView,
    now_ms: TimestampMs,
    fresh: Seq<char>,
)
    ensures
        flow.action() is FindRemote ==> flow.resumed(
            QueueReplyView::Binding(Err(error)),
            now_ms,
            fresh,
        ) == InstallFlowView::Done(Err(error)),
        flow.action() is Save ==> flow.resumed(QueueReplyView::Saved(Err(error)), now_ms, fresh)
            == InstallFlowView::Done(Err(error)),
{
}

/// A queue that is removed is first recorded as such, then taken from the
/// operating system if it is there, and then forgotten.
pub proof fn law_queues_are_removed(
    id: Seq<char>,
    binding: RemoteQueueBindingView,
    deleted: core::result::Result<(), PrintErrorView>,
    t1: TimestampMs,
    t2: TimestampMs,
    t3: TimestampMs,
    t4: TimestampMs,
)
    requires
        binding.system_queue_id is Some || binding.state == QueueBindingState::Failed
            || binding.state == QueueBindingState::Removing,
    ensures
        ({
            let start = RemoveFlowView::Lookup(id);
            let marking = start.resumed(QueueReplyView::Binding(Ok(Some(binding))), t1);
            let marked = marking.resumed(QueueReplyView::Saved(Ok(())), t2);
            let gone = match binding.system_queue_id {
                Some(_) => marked.resumed(QueueReplyView::Uninstalled(Ok(())), t3),
                None => marked,
            };
            &&& start.action() == QueueActionView::Find(id)
            &&& marking.action() matches QueueActionView::Save(after) && after.state
                == QueueBindingState::Removing && after.id == binding.id && after.system_queue_id
                == binding.system_queue_id && after.system_queue_name == binding.system_queue_name
            &&& binding.system_queue_id matches Some(queue) ==> marked.action()
                == QueueActionView::Uninstall(queue)
            &&& gone.action() == QueueActionView::Delete(id)
            &&& gone.resumed(QueueReplyView::Deleted(deleted), t4) == RemoveFlowView::Done(deleted)
        }),
{
}

/// A queue that is not known, or not yet installed, is not removed; and no
/// step is taken after one that failed.
pub proof fn law_removal_stops_at_failure(
    id: Seq<char>,
    queue: Seq<char>,
    binding: RemoteQueueBindingView,
    error: PrintErrorView,
    now_ms: TimestampMs,
)
    ensures
        RemoveFlowView::Lookup(id).resumed(QueueReplyView::Binding(Ok(None)), now_ms)
            == RemoveFlowView::Done(Err(PrintErrorView::NotFound(id))),
        RemoveFlowView::Lookup(id).resumed(QueueReplyView::Binding(Err(error)), now_ms)
            == RemoveFlowView::Done(Err(error)),
        binding.state == QueueBindingState::Installing && binding.system_queue_id is None ==> (
        RemoveFlowView::Lookup(id).resumed(
            QueueReplyView::Binding(Ok(Some(binding))),
            now_ms,
        ) matches RemoveFlowView::Done(Err(e)) && e is InvalidState),
        RemoveFlowView::Recording(id, binding).resumed(QueueReplyView::Saved(Err(error)), now_ms)
            == RemoveFlowView::Done(Err(error)),
        RemoveFlowView::Uninstalling(id, queue).resumed(
            QueueReplyView::Uninstalled(Err(error)),
            now_ms,
        ) == RemoveFlowView::Done(Err(error)),
{
}

/// A ready queue waits when its source is lost, and is ready again when the
/// source is found; a queue in another state does not notice.
pub proof fn law_queues_follow_their_source(binding: RemoteQueueBindingView, now_ms: TimestampMs)
    ensures
        ({
            let lost = binding.after_offline(now_ms);
            let found = binding.after_online(now_ms);
            &&& binding.state == QueueBindingState::Ready || binding.state
                == QueueBindingState::SourceOffline ==> lost.state
                == QueueBindingState::SourceOffline && lost.updated_at_ms == now_ms
            &&& binding.state == QueueBindingState::SourceOffline ==> found.state
                == QueueBindingState::Ready && found.updated_at_ms == now_ms
            &&& binding.state != QueueBindingState::Ready && binding.state
                != QueueBindingState::SourceOffline ==> lost == binding
            &&& binding.state != QueueBindingState::SourceOffline ==> found == binding
            &&& lost.id == binding.id && found.id == binding.id
            &&& lost.system_queue_id == binding.system_queue_id && found.system_queue_id
                == binding.system_queue_id
            &&& lost.created_at_ms == binding.created_at_ms && found.created_at_ms
                == binding.created_at_ms
        }),
{
}

/// Only an installation that is under way succeeds, and only one that failed
/// is retried.
pub proof fn law_queue_steps_are_guarded(
    binding: RemoteQueueBindingView,
    queue: Seq<char>,
    message: Seq<char>,
    now_ms: TimestampMs,
)
    ensures
        binding.after_installed(queue, now_ms) is Ok <==> binding.state
            == QueueBindingState::Installing,
        binding.after_retry(now_ms) is Ok <==> binding.state == QueueBindingState::Failed,
        binding.after_begin_removal(now_ms) is Ok <==> binding.system_queue_id is Some
            || binding.state == QueueBindingState::Failed || binding.state
            == QueueBindingState::Removing,
        binding.after_begin_removal(now_ms) matches Ok(after) ==> after.state
            == QueueBindingState::Removing,
        binding.after_fail(message, now_ms).state == QueueBindingState::Failed,
        binding.after_fail(message, now_ms).failure_message == Some(message),
        binding.after_fail(message, now_ms).system_queue_id == binding.system_queue_id,
{
}

} // verus!
