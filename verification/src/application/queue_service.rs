//! Installing and removing local queues for printers of other devices.
use vstd::prelude::*;
use vstd::string::*;

use crate::application::ports::{SystemQueueSpec, SystemQueueSpecView};
use crate::domain::id::{DeviceId, PrinterShareId, QueueBindingId, SystemQueueId};
use crate::domain::printer::{PublishedPrinter, PublishedPrinterView};
use crate::domain::queue_binding::{
    new_binding, QueueBindingState, RemoteQueueBinding, RemoteQueueBindingView,
};
use crate::domain::TimestampMs;
use crate::error::{optional, outcome, PrintError, PrintErrorView, PrintResult};
use crate::model::opt;
use crate::text::is_blank;
use crate::unique::{is_random_text, lemma_random_text_exists};

verus! {

/// What a flow asks for.
pub enum QueueAction<'a> {
    /// The binding of a printer of another device.
    FindRemote(&'a DeviceId, &'a PrinterShareId),
    Find(&'a QueueBindingId),
    Save(&'a RemoteQueueBinding),
    /// Set the queue up in the operating system.
    Install(&'a SystemQueueSpec),
    /// Take the queue out of the operating system.
    Uninstall(&'a SystemQueueId),
    Delete(&'a QueueBindingId),
    Finished,
}

pub enum QueueActionView {
    FindRemote(Seq<char>, Seq<char>),
    Find(Seq<char>),
    Save(RemoteQueueBindingView),
    Install(SystemQueueSpecView),
    Uninstall(Seq<char>),
    Delete(Seq<char>),
    Finished,
}

impl<'a> View for QueueAction<'a> {
    type V = QueueActionView;

    open spec fn view(&self) -> QueueActionView {
        match *self {
            QueueAction::FindRemote(device, share) => QueueActionView::FindRemote(device@, share@),
            QueueAction::Find(id) => QueueActionView::Find(id@),
            QueueAction::Save(binding) => QueueActionView::Save(binding@),
            QueueAction::Install(spec) => QueueActionView::Install(spec@),
            QueueAction::Uninstall(id) => QueueActionView::Uninstall(id@),
            QueueAction::Delete(id) => QueueActionView::Delete(id@),
            QueueAction::Finished => QueueActionView::Finished,
        }
    }
}

/// An answer to a [`QueueAction`].
pub enum QueueReply {
    Binding(PrintResult<Option<RemoteQueueBinding>>),
    Saved(PrintResult<()>),
    Installed(PrintResult<SystemQueueId>),
    Uninstalled(PrintResult<()>),
    Deleted(PrintResult<()>),
}

pub enum QueueReplyView {
    Binding(core::result::Result<Option<RemoteQueueBindingView>, PrintErrorView>),
    Saved(core::result::Result<(), PrintErrorView>),
    Installed(core::result::Result<Seq<char>, PrintErrorView>),
    Uninstalled(core::result::Result<(), PrintErrorView>),
    Deleted(core::result::Result<(), PrintErrorView>),
}

impl View for QueueReply {
    type V = QueueReplyView;

    open spec fn view(&self) -> QueueReplyView {
        match *self {
            QueueReply::Binding(r) => QueueReplyView::Binding(optional(r)),
            QueueReply::Saved(r) => QueueReplyView::Saved(outcome(r)),
            QueueReply::Installed(r) => QueueReplyView::Installed(outcome(r)),
            QueueReply::Uninstalled(r) => QueueReplyView::Uninstalled(outcome(r)),
            QueueReply::Deleted(r) => QueueReplyView::Deleted(outcome(r)),
        }
    }
}

/// Where an installation stands.
pub enum InstallFlow {
    /// Is there a queue for the printer already?
    Lookup { printer: PublishedPrinter, queue_name: String, ipp_uri: String },
    /// The binding is recorded as being installed.
    Recording { binding: RemoteQueueBinding, printer: PublishedPrinter, ipp_uri: String },
    /// The operating system sets the queue up.
    Installing { binding: RemoteQueueBinding, spec: SystemQueueSpec },
    /// The outcome is recorded.
    Saving(RemoteQueueBinding),
    Done(PrintResult<RemoteQueueBinding>),
}

pub enum InstallFlowView {
    Lookup { printer: PublishedPrinterView, queue_name: Seq<char>, ipp_uri: Seq<char> },
    Recording {
        binding: RemoteQueueBindingView,
        printer: PublishedPrinterView,
        ipp_uri: Seq<char>,
    },
    Installing { binding: RemoteQueueBindingView, spec: SystemQueueSpecView },
    Saving(RemoteQueueBindingView),
    Done(core::result::Result<RemoteQueueBindingView, PrintErrorView>),
}

impl View for InstallFlow {
    type V = InstallFlowView;

    open spec fn view(&self) -> InstallFlowView {
        match *self {
            InstallFlow::Lookup { printer, queue_name, ipp_uri } => InstallFlowView::Lookup {
                printer: printer@,
                queue_name: queue_name@,
                ipp_uri: ipp_uri@,
            },
            InstallFlow::Recording { binding, printer, ipp_uri } => InstallFlowView::Recording {
                binding: binding@,
                printer: printer@,
                ipp_uri: ipp_uri@,
            },
            InstallFlow::Installing { binding, spec } => InstallFlowView::Installing {
                binding: binding@,
                spec: spec@,
            },
            InstallFlow::Saving(binding) => InstallFlowView::Saving(binding@),
            InstallFlow::Done(result) => InstallFlowView::Done(outcome(result)),
        }
    }
}

impl InstallFlowView {
    /// What the flow asks for.
    pub open spec fn action(self) -> QueueActionView {
        match self {
            InstallFlowView::Lookup { printer, queue_name, ipp_uri } => {
                QueueActionView::FindRemote(printer.source_device_id, printer.share_id)
            },
            InstallFlowView::Recording { binding, printer, ipp_uri } => QueueActionView::Save(
                binding,
            ),
            InstallFlowView::Installing { binding, spec } => QueueActionView::Install(spec),
            InstallFlowView::Saving(binding) => QueueActionView::Save(binding),
            InstallFlowView::Done(_) => QueueActionView::Finished,
        }
    }

    /// The flow once it is known whether there is a queue for the printer; a
    /// new binding is called `fresh`.
    pub open spec fn after_lookup(
        printer: PublishedPrinterView,
        queue_name: Seq<char>,
        ipp_uri: Seq<char>,
        found: Option<RemoteQueueBindingView>,
        now_ms: TimestampMs,
        fresh: Seq<char>,
    ) -> Self {
        match found {
            Some(binding) => match binding.state {
                QueueBindingState::Failed => match binding.after_retry(now_ms) {
                    Ok(binding) => InstallFlowView::Recording { binding, printer, ipp_uri },
                    Err(error) => InstallFlowView::Done(Err(error)),
                },
                QueueBindingState::Removing => InstallFlowView::Done(
                    Err(PrintErrorView::InvalidState("printer queue is currently being removed"@)),
                ),
                _ => InstallFlowView::Done(Ok(binding)),
            },
            None => if is_blank(queue_name) {
                InstallFlowView::Done(Err(PrintErrorView::Invalid("system queue name is empty"@)))
            } else {
                InstallFlowView::Recording {
                    binding: new_binding(
                        fresh,
                        printer.source_device_id,
                        printer.share_id,
                        queue_name,
                        now_ms,
                    ),
                    printer,
                    ipp_uri,
                }
            },
        }
    }

    /// The flow after `reply`. An answer to another question changes nothing.
    pub open spec fn resumed(
        self,
        reply: QueueReplyView,
        now_ms: TimestampMs,
        fresh: Seq<char>,
    ) -> Self {
        match (self, reply) {
            (InstallFlowView::Lookup { .. }, QueueReplyView::Binding(Err(error))) => {
                InstallFlowView::Done(Err(error))
            },
            (
                InstallFlowView::Lookup { printer, queue_name, ipp_uri },
                QueueReplyView::Binding(Ok(found)),
            ) => InstallFlowView::after_lookup(
                printer,
                queue_name,
                ipp_uri,
                found,
                now_ms,
                fresh,
            ),
            (InstallFlowView::Recording { .. }, QueueReplyView::Saved(Err(error))) => {
                InstallFlowView::Done(Err(error))
            },
            (
                InstallFlowView::Recording { binding, printer, ipp_uri },
                QueueReplyView::Saved(Ok(_)),
            ) => InstallFlowView::Installing {
                binding,
                spec: SystemQueueSpecView {
                    queue_name: binding.system_queue_name,
                    ipp_uri,
                    printer,
                },
            },
            (
                InstallFlowView::Installing { binding, spec },
                QueueReplyView::Installed(Ok(id)),
            ) => match binding.after_installed(id, now_ms) {
                Ok(binding) => InstallFlowView::Saving(binding),
                Err(error) => InstallFlowView::Done(Err(error)),
            },
            (
                InstallFlowView::Installing { binding, spec },
                QueueReplyView::Installed(Err(error)),
            ) => InstallFlowView::Saving(binding.after_fail(error.text(), now_ms)),
            (InstallFlowView::Saving(binding), QueueReplyView::Saved(Ok(_))) => {
                InstallFlowView::Done(Ok(binding))
            },
            (InstallFlowView::Saving(_), QueueReplyView::Saved(Err(error))) => {
                InstallFlowView::Done(Err(error))
            },
            _ => self,
        }
    }

    /// A binding that is recorded or set up is marked as being installed.
    pub open spec fn wf(self) -> bool {
        match self {
            InstallFlowView::Recording { binding, printer, ipp_uri } => binding.state
                == QueueBindingState::Installing,
            InstallFlowView::Installing { binding, spec } => binding.state
                == QueueBindingState::Installing,
            _ => true,
        }
    }
}

impl InstallFlow {
    /// What the flow asks for.
    pub fn action(&self) -> (r: QueueAction<'_>)
        ensures
            r@ == self@.action(),
    {
        match self {
            InstallFlow::Lookup { printer, queue_name: _, ipp_uri: _ } => QueueAction::FindRemote(
                &printer.source_device_id,
                &printer.share_id,
            ),
            InstallFlow::Recording { binding, printer: _, ipp_uri: _ } => QueueAction::Save(
                binding,
            ),
            InstallFlow::Installing { binding: _, spec } => QueueAction::Install(spec),
            InstallFlow::Saving(binding) => QueueAction::Save(binding),
            InstallFlow::Done(_) => QueueAction::Finished,
        }
    }

    fn after_lookup(
        printer: PublishedPrinter,
        queue_name: String,
        ipp_uri: String,
        found: Option<RemoteQueueBinding>,
        now_ms: TimestampMs,
    ) -> (r: Self)
        ensures
            exists|fresh: Seq<char>|
                is_random_text(fresh) && r@ == #[trigger] InstallFlowView::after_lookup(
                    printer@,
                    queue_name@,
                    ipp_uri@,
                    opt(found),
                    now_ms,
                    fresh,
                ),
    {
        let ghost any = lemma_random_text_exists();
        match found {
            Some(existing) => {
                let r = match existing.state {
                    QueueBindingState::Failed => {
                        let mut binding = existing;
                        match binding.retry_installing(now_ms) {
                            Ok(_) => InstallFlow::Recording { binding, printer, ipp_uri },
                            Err(error) => InstallFlow::Done(Err(error)),
                        }
                    },
                    QueueBindingState::Removing => InstallFlow::Done(
                        Err(
                            PrintError::InvalidState(
                                "printer queue is currently being removed".to_string(),
                            ),
                        ),
                    ),
                    QueueBindingState::Installing
                    | QueueBindingState::Ready
                    | QueueBindingState::SourceOffline => InstallFlow::Done(Ok(existing)),
                };
                assert(r@ == InstallFlowView::after_lookup(
                    printer@,
                    queue_name@,
                    ipp_uri@,
                    opt(found),
                    now_ms,
                    any,
                ));
                r
            },
            None => match RemoteQueueBinding::installing(
                printer.source_device_id.clone(),
                printer.share_id.clone(),
                queue_name,
                now_ms,
            ) {
                Ok(binding) => {
                    let ghost fresh = binding@.id;
                    let r = InstallFlow::Recording { binding, printer, ipp_uri };
                    assert(r@ == InstallFlowView::after_lookup(
                        printer@,
                        queue_name@,
                        ipp_uri@,
                        None,
                        now_ms,
                        fresh,
                    ));
                    r
                },
                Err(error) => {
                    let r = InstallFlow::Done(Err(error));
                    assert(r@ == InstallFlowView::after_lookup(
                        printer@,
                        queue_name@,
                        ipp_uri@,
                        None,
                        now_ms,
                        any,
                    ));
                    r
                },
            },
        }
    }

    /// Takes an answer and moves on.
    pub fn resume(self, reply: QueueReply, now_ms: TimestampMs) -> (r: Self)
        ensures
            exists|fresh: Seq<char>|
                is_random_text(fresh) && r@ == #[trigger] self@.resumed(reply@, now_ms, fresh),
    {
        let ghost before = self@;
        let ghost answer = reply@;
        let ghost any = lemma_random_text_exists();
        match (self, reply) {
            (
                InstallFlow::Lookup { printer, queue_name, ipp_uri },
                QueueReply::Binding(Ok(found)),
            ) => {
                let r = InstallFlow::after_lookup(printer, queue_name, ipp_uri, found, now_ms);
                let ghost fresh = choose|fresh: Seq<char>|
                    is_random_text(fresh) && r@ == #[trigger] InstallFlowView::after_lookup(
                        printer@,
                        queue_name@,
                        ipp_uri@,
                        opt(found),
                        now_ms,
                        fresh,
                    );
                assert(r@ == before.resumed(answer, now_ms, fresh));
                r
            },
            (
                InstallFlow::Lookup { printer: _, queue_name: _, ipp_uri: _ },
                QueueReply::Binding(Err(error)),
            ) => {
                let r = InstallFlow::Done(Err(error));
                assert(r@ == before.resumed(answer, now_ms, any));
                r
            },
            (
                InstallFlow::Recording { binding: _, printer: _, ipp_uri: _ },
                QueueReply::Saved(Err(error)),
            ) => {
                let r = InstallFlow::Done(Err(error));
                assert(r@ == before.resumed(answer, now_ms, any));
                r
            },
            (
                InstallFlow::Recording { binding, printer, ipp_uri },
                QueueReply::Saved(Ok(_)),
            ) => {
                let queue_name = binding.system_queue_name.clone();
                let r = InstallFlow::Installing {
                    binding,
                    spec: SystemQueueSpec { queue_name, ipp_uri, printer },
                };
                assert(r@ == before.resumed(answer, now_ms, any));
                r
            },
            (
                InstallFlow::Installing { binding: known, spec: _ },
                QueueReply::Installed(installed),
            ) => {
                let mut binding = known;
                let r = match installed {
                    Ok(id) => match binding.installed(id, now_ms) {
                        Ok(_) => InstallFlow::Saving(binding),
                        Err(error) => InstallFlow::Done(Err(error)),
                    },
                    Err(error) => {
                        binding.fail(error.to_string(), now_ms);
                        InstallFlow::Saving(binding)
                    },
                };
                assert(r@ == before.resumed(answer, now_ms, any));
                r
            },
            (InstallFlow::Saving(binding), QueueReply::Saved(saved)) => {
                let r = match saved {
                    Ok(_) => InstallFlow::Done(Ok(binding)),
                    Err(error) => InstallFlow::Done(Err(error)),
                };
                assert(r@ == before.resumed(answer, now_ms, any));
                r
            },
            (other, _) => {
                assert(other@ == before.resumed(answer, now_ms, any));
                other
            },
        }
    }
}

/// Where a removal stands.
pub enum RemoveFlow {
    Lookup(QueueBindingId),
    /// The binding is recorded as being removed.
    Recording(QueueBindingId, RemoteQueueBinding),
    /// The operating system takes the queue out.
    Uninstalling(QueueBindingId, SystemQueueId),
    Deleting(QueueBindingId),
    Done(PrintResult<()>),
}

pub enum RemoveFlowView {
    Lookup(Seq<char>),
    Recording(Seq<char>, RemoteQueueBindingView),
    Uninstalling(Seq<char>, Seq<char>),
    Deleting(Seq<char>),
    Done(core::result::Result<(), PrintErrorView>),
}

impl View for RemoveFlow {
    type V = RemoveFlowView;

    open spec fn view(&self) -> RemoveFlowView {
        match *self {
            RemoveFlow::Lookup(id) => RemoveFlowView::Lookup(id@),
            RemoveFlow::Recording(id, binding) => RemoveFlowView::Recording(id@, binding@),
            RemoveFlow::Uninstalling(id, queue) => RemoveFlowView::Uninstalling(id@, queue@),
            RemoveFlow::Deleting(id) => RemoveFlowView::Deleting(id@),
            RemoveFlow::Done(result) => RemoveFlowView::Done(outcome(result)),
        }
    }
}

impl RemoveFlowView {
    /// What the flow asks for.
    pub open spec fn action(self) -> QueueActionView {
        match self {
            RemoveFlowView::Lookup(id) => QueueActionView::Find(id),
            RemoveFlowView::Recording(_, binding) => QueueActionView::Save(binding),
            RemoveFlowView::Uninstalling(_, queue) => QueueActionView::Uninstall(queue),
            RemoveFlowView::Deleting(id) => QueueActionView::Delete(id),
            RemoveFlowView::Done(_) => QueueActionView::Finished,
        }
    }

    /// The flow after `reply`. An answer to another question changes nothing.
    pub open spec fn resumed(self, reply: QueueReplyView, now_ms: TimestampMs) -> Self {
        match (self, reply) {
            (RemoveFlowView::Lookup(_), QueueReplyView::Binding(Err(error))) => {
                RemoveFlowView::Done(Err(error))
            },
            (RemoveFlowView::Lookup(id), QueueReplyView::Binding(Ok(None))) => {
                RemoveFlowView::Done(Err(PrintErrorView::NotFound(id)))
            },
            (RemoveFlowView::Lookup(id), QueueReplyView::Binding(Ok(Some(binding)))) => {
                match binding.after_begin_removal(now_ms) {
                    Ok(binding) => RemoveFlowView::Recording(id, binding),
                    Err(error) => RemoveFlowView::Done(Err(error)),
                }
            },
            (RemoveFlowView::Recording(_, _), QueueReplyView::Saved(Err(error))) => {
                RemoveFlowView::Done(Err(error))
            },
            (RemoveFlowView::Recording(id, binding), QueueReplyView::Saved(Ok(_))) => {
                match binding.system_queue_id {
                    Some(queue) => RemoveFlowView::Uninstalling(id, queue),
                    None => RemoveFlowView::Deleting(id),
                }
            },
            (RemoveFlowView::Uninstalling(_, _), QueueReplyView::Uninstalled(Err(error))) => {
                RemoveFlowView::Done(Err(error))
            },
            (RemoveFlowView::Uninstalling(id, _), QueueReplyView::Uninstalled(Ok(_))) => {
                RemoveFlowView::Deleting(id)
            },
            (RemoveFlowView::Deleting(_), QueueReplyView::Deleted(deleted)) => {
                RemoveFlowView::Done(deleted)
            },
            _ => self,
        }
    }
}

impl RemoveFlow {
    /// What the flow asks for.
    pub fn action(&self) -> (r: QueueAction<'_>)
        ensures
            r@ == self@.action(),
    {
        match self {
            RemoveFlow::Lookup(id) => QueueAction::Find(id),
            RemoveFlow::Recording(_, binding) => QueueAction::Save(binding),
            RemoveFlow::Uninstalling(_, queue) => QueueAction::Uninstall(queue),
            RemoveFlow::Deleting(id) => QueueAction::Delete(id),
            RemoveFlow::Done(_) => QueueAction::Finished,
        }
    }

    /// Takes an answer and moves on.
    pub fn resume(self, reply: QueueReply, now_ms: TimestampMs) -> (r: Self)
        ensures
            r@ == self@.resumed(reply@, now_ms),
    {
        match (self, reply) {
            (RemoveFlow::Lookup(id), QueueReply::Binding(found)) => match found {
                Err(error) => RemoveFlow::Done(Err(error)),
                Ok(None) => RemoveFlow::Done(Err(PrintError::NotFound(id.to_string()))),
                Ok(Some(known)) => {
                    let mut binding = known;
                    match binding.begin_removal(now_ms) {
                        Ok(_) => RemoveFlow::Recording(id, binding),
                        Err(error) => RemoveFlow::Done(Err(error)),
                    }
                },
            },
            (RemoveFlow::Recording(id, binding), QueueReply::Saved(saved)) => match saved {
                Err(error) => RemoveFlow::Done(Err(error)),
                Ok(_) => match binding.system_queue_id {
                    Some(queue) => RemoveFlow::Uninstalling(id, queue),
                    None => RemoveFlow::Deleting(id),
                },
            },
            (RemoveFlow::Uninstalling(id, _), QueueReply::Uninstalled(gone)) => match gone {
                Err(error) => RemoveFlow::Done(Err(error)),
                Ok(_) => RemoveFlow::Deleting(id),
            },
            (RemoveFlow::Deleting(_), QueueReply::Deleted(deleted)) => RemoveFlow::Done(deleted),
            (other, _) => other,
        }
    }
}

/// Local queues for printers of other devices.
#[derive(Debug)]
pub struct SystemQueueService;

impl SystemQueueService {
    pub fn new() -> Self {
        SystemQueueService
    }

    /// Installs a queue for `printer`, or gives the one that is there.
    pub fn install(
        &self,
        printer: PublishedPrinter,
        queue_name: String,
        ipp_uri: String,
    ) -> (r: InstallFlow)
        ensures
            r@ == (InstallFlowView::Lookup {
                printer: printer@,
                queue_name: queue_name@,
                ipp_uri: ipp_uri@,
            }),
    {
        InstallFlow::Lookup { printer, queue_name, ipp_uri }
    }

    /// Removes a queue.
    pub fn remove(&self, id: &QueueBindingId) -> (r: RemoveFlow)
        ensures
            r@ == RemoveFlowView::Lookup(id@),
    {
        RemoveFlow::Lookup(id.clone())
    }
}

/// The operating system is asked to set up only a queue that is recorded as
/// being installed.
pub proof fn law_installation_is_recorded(
    flow: InstallFlowView,
    reply: QueueReplyView,
    now_ms: TimestampMs,
    fresh: Seq<char>,
)
    requires
        flow.wf(),
    ensures
        flow.resumed(reply, now_ms, fresh).wf(),
        flow.resumed(reply, now_ms, fresh).action() is Install && flow.resumed(
            reply,
            now_ms,
            fresh,
        ) != flow ==> (flow.action() matches QueueActionView::Save(binding) && binding.state
            == QueueBindingState::Installing),
{
}

/// A queue that is up, reachable or not, or on its way is not installed a
/// second time: asking again gives the binding that is there.
pub proof fn law_install_is_idempotent(
    printer: PublishedPrinterView,
    queue_name: Seq<char>,
    ipp_uri: Seq<char>,
    binding: RemoteQueueBindingView,
    now_ms: TimestampMs,
    fresh: Seq<char>,
)
    requires
        binding.state != QueueBindingState::Failed,
        binding.state != QueueBindingState::Removing,
    ensures
        (InstallFlowView::Lookup { printer, queue_name, ipp_uri }).resumed(
            QueueReplyView::Binding(Ok(Some(binding))),
            now_ms,
            fresh,
        ) == InstallFlowView::Done(Ok(binding)),
{
}

/// Whatever the operating system says, the installation ends in a binding
/// that is ready or one that says why it failed.
pub proof fn law_installation_has_outcome(
    binding: RemoteQueueBindingView,
    spec: SystemQueueSpecView,
    installed: core::result::Result<Seq<char>, PrintErrorView>,
    now_ms: TimestampMs,
    fresh: Seq<char>,
)
    requires
        binding.state == QueueBindingState::Installing,
    ensures
        (InstallFlowView::Installing { binding, spec }).resumed(
            QueueReplyView::Installed(installed),
            now_ms,
            fresh,
        ) matches InstallFlowView::Saving(after) && match installed {
            Ok(id) => after.state == QueueBindingState::Ready && after.system_queue_id == Some(id),
            Err(error) => after.state == QueueBindingState::Failed && after.failure_message
                == Some(error.text()),
        },
{
}

/// A binding is deleted only after its system queue, if it has one, is gone.
pub proof fn law_queue_gone_before_binding(
    flow: RemoveFlowView,
    reply: QueueReplyView,
    now_ms: TimestampMs,
)
    requires
        flow.resumed(reply, now_ms).action() is Delete,
        !(flow.action() is Delete),
    ensures
        match flow.action() {
            QueueActionView::Uninstall(_) => reply matches QueueReplyView::Uninstalled(Ok(_)),
            QueueActionView::Save(binding) => binding.system_queue_id is None,
            _ => false,
        },
{
}

/// A printer without a queue gets one: it is recorded as being installed, set
/// up under its name and address, recorded as ready and given back.
pub proof fn law_new_queues_become_ready(
    printer: PublishedPrinterView,
    queue_name: Seq<char>,
    ipp_uri: Seq<char>,
    queue_id: Seq<char>,
    t1: TimestampMs,
    t2: TimestampMs,
    t3: TimestampMs,
    t4: TimestampMs,
    fresh: Seq<char>,
)
    requires
        !is_blank(queue_name),
    ensures
        ({
            let binding = new_binding(
                fresh,
                printer.source_device_id,
                printer.share_id,
                queue_name,
                t1,
            );
            let ready = RemoteQueueBindingView {
                system_queue_id: Some(queue_id),
                state: QueueBindingState::Ready,
                updated_at_ms: t3,
                ..binding
            };
            let recording = (InstallFlowView::Lookup { printer, queue_name, ipp_uri }).resumed(
                QueueReplyView::Binding(Ok(None)),
                t1,
                fresh,
            );
            let installing = recording.resumed(QueueReplyView::Saved(Ok(())), t2, fresh);
            let saving = installing.resumed(QueueReplyView::Installed(Ok(queue_id)), t3, fresh);
            &&& recording.action() == QueueActionView::Save(binding)
            &&& installing.action() == QueueActionView::Install(
                SystemQueueSpecView { queue_name, ipp_uri, printer },
            )
            &&& saving.action() == QueueActionView::Save(ready)
            &&& saving.resumed(QueueReplyView::Saved(Ok(())), t4, fresh) == InstallFlowView::Done(
                Ok(ready),
            )
        }),
{
}

} // verus!
