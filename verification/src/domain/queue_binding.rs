//! Local print queues that forward to a printer of another device.
use vstd::prelude::*;
use vstd::string::*;

use crate::domain::id::{DeviceId, PrinterShareId, QueueBindingId, SystemQueueId};
use crate::domain::TimestampMs;
use crate::error::{updates, PrintError, PrintErrorView, PrintResult};
use crate::model::opt;
use crate::text::{blank, has_prefix, is_blank, starts_with};
use crate::unique::is_random_text;

verus! {

/// How the names of managed queues begin.
pub const REMOTE_QUEUE_PREFIX: &'static str = "ArcRelay_";

/// Whether a queue of this name is one that this crate installed.
pub fn is_managed_remote_queue_name(value: &str) -> (r: bool)
    ensures
        r == has_prefix(value@, REMOTE_QUEUE_PREFIX@),
{
    starts_with(value, REMOTE_QUEUE_PREFIX)
}

#[derive(Debug, Clone, Copy, PartialEq, Eq, Structural)]
pub enum QueueBindingState {
    Installing,
    Ready,
    SourceOffline,
    Removing,
    Failed,
}

/// A local queue that forwards to a printer of another device.
#[derive(Debug, PartialEq, Eq)]
pub struct RemoteQueueBinding {
    pub id: QueueBindingId,
    pub remote_device_id: DeviceId,
    pub printer_share_id: PrinterShareId,
    pub system_queue_name: String,
    pub system_queue_id: Option<SystemQueueId>,
    pub state: QueueBindingState,
    pub auto_reconnect: bool,
    pub failure_message: Option<String>,
    pub created_at_ms: TimestampMs,
    pub updated_at_ms: TimestampMs,
}

pub struct RemoteQueueBindingView {
    pub id: Seq<char>,
    pub remote_device_id: Seq<char>,
    pub printer_share_id: Seq<char>,
    pub system_queue_name: Seq<char>,
    pub system_queue_id: Option<Seq<char>>,
    pub state: QueueBindingState,
    pub auto_reconnect: bool,
    pub failure_message: Option<Seq<char>>,
    pub created_at_ms: TimestampMs,
    pub updated_at_ms: TimestampMs,
}

impl View for RemoteQueueBinding {
    type V = RemoteQueueBindingView;

    open spec fn view(&self) -> RemoteQueueBindingView {
        RemoteQueueBindingView {
            id: self.id@,
            remote_device_id: self.remote_device_id@,
            printer_share_id: self.printer_share_id@,
            system_queue_name: self.system_queue_name@,
            system_queue_id: opt(self.system_queue_id),
            state: self.state,
            auto_reconnect: self.auto_reconnect,
            failure_message: opt(self.failure_message),
            created_at_ms: self.created_at_ms,
            updated_at_ms: self.updated_at_ms,
        }
    }
}

impl Clone for RemoteQueueBinding {
    fn clone(&self) -> (r: Self)
        ensures
            r@ == self@,
    {
        RemoteQueueBinding {
            id: self.id.clone(),
            remote_device_id: self.remote_device_id.clone(),
            printer_share_id: self.printer_share_id.clone(),
            system_queue_name: self.system_queue_name.clone(),
            system_queue_id: match &self.system_queue_id {
                Some(id) => Some(id.clone()),
                None => None,
            },
            state: self.state,
            auto_reconnect: self.auto_reconnect,
            failure_message: match &self.failure_message {
                Some(message) => Some(message.clone()),
                None => None,
            },
            created_at_ms: self.created_at_ms,
            updated_at_ms: self.updated_at_ms,
        }
    }
}

/// The binding, called `id`, at the start of its installation.
pub open spec fn new_binding(
    id: Seq<char>,
    remote_device_id: Seq<char>,
    printer_share_id: Seq<char>,
    system_queue_name: Seq<char>,
    now_ms: TimestampMs,
) -> RemoteQueueBindingView {
    RemoteQueueBindingView {
        id,
        remote_device_id,
        printer_share_id,
        system_queue_name,
        system_queue_id: None,
        state: QueueBindingState::Installing,
        auto_reconnect: true,
        failure_message: None,
        created_at_ms: now_ms,
        updated_at_ms: now_ms,
    }
}

impl RemoteQueueBindingView {
    /// The binding after [`RemoteQueueBinding::installed`].
    pub open spec fn after_installed(
        self,
        queue_id: Seq<char>,
        now_ms: TimestampMs,
    ) -> core::result::Result<Self, PrintErrorView> {
        if self.state == QueueBindingState::Installing {
            Ok(
                RemoteQueueBindingView {
                    system_queue_id: Some(queue_id),
                    state: QueueBindingState::Ready,
                    failure_message: None,
                    updated_at_ms: now_ms,
                    ..self
                },
            )
        } else {
            Err(PrintErrorView::InvalidState("only an installing queue can become ready"@))
        }
    }

    /// The binding after [`RemoteQueueBinding::retry_installing`].
    pub open spec fn after_retry(self, now_ms: TimestampMs) -> core::result::Result<Self, PrintErrorView> {
        if self.state == QueueBindingState::Failed {
            Ok(
                RemoteQueueBindingView {
                    system_queue_id: None,
                    state: QueueBindingState::Installing,
                    failure_message: None,
                    updated_at_ms: now_ms,
                    ..self
                },
            )
        } else {
            Err(PrintErrorView::InvalidState("only a failed queue can retry installation"@))
        }
    }

    /// The binding after [`RemoteQueueBinding::source_offline`].
    pub open spec fn after_offline(self, now_ms: TimestampMs) -> Self {
        if self.state == QueueBindingState::Ready || self.state
            == QueueBindingState::SourceOffline {
            RemoteQueueBindingView {
                state: QueueBindingState::SourceOffline,
                updated_at_ms: now_ms,
                ..self
            }
        } else {
            self
        }
    }

    /// The binding after [`RemoteQueueBinding::source_online`].
    pub open spec fn after_online(self, now_ms: TimestampMs) -> Self {
        if self.state == QueueBindingState::SourceOffline {
            RemoteQueueBindingView { state: QueueBindingState::Ready, updated_at_ms: now_ms, ..self }
        } else {
            self
        }
    }

    /// The binding after [`RemoteQueueBinding::begin_removal`].
    pub open spec fn after_begin_removal(self, now_ms: TimestampMs) -> core::result::Result<
        Self,
        PrintErrorView,
    > {
        if self.state == QueueBindingState::Removing {
            Ok(self)
        } else if self.system_queue_id is None && self.state != QueueBindingState::Failed {
            Err(PrintErrorView::InvalidState("queue has not been installed"@))
        } else {
            Ok(
                RemoteQueueBindingView {
                    state: QueueBindingState::Removing,
                    updated_at_ms: now_ms,
                    ..self
                },
            )
        }
    }

    /// The binding after [`RemoteQueueBinding::fail`].
    pub open spec fn after_fail(self, message: Seq<char>, now_ms: TimestampMs) -> Self {
        RemoteQueueBindingView {
            state: QueueBindingState::Failed,
            failure_message: Some(message),
            updated_at_ms: now_ms,
            ..self
        }
    }

    /// A queue that is up, reachable or not, has a system queue.
    pub open spec fn wf(self) -> bool {
        (self.state == QueueBindingState::Ready || self.state == QueueBindingState::SourceOffline)
            ==> self.system_queue_id is Some
    }
}

impl RemoteQueueBinding {
    /// Starts the installation of a queue under a fresh identifier.
    pub fn installing(
        remote_device_id: DeviceId,
        printer_share_id: PrinterShareId,
        system_queue_name: String,
        now_ms: TimestampMs,
    ) -> (r: PrintResult<Self>)
        ensures
            if is_blank(system_queue_name@) {
                r matches Err(e) && e@ == PrintErrorView::Invalid("system queue name is empty"@)
            } else {
                r matches Ok(binding) && is_random_text(binding@.id) && binding@ == new_binding(
                    binding@.id,
                    remote_device_id@,
                    printer_share_id@,
                    system_queue_name@,
                    now_ms,
                )
            },
    {
        if blank(system_queue_name.as_str()) {
            return Err(PrintError::Invalid("system queue name is empty".to_string()));
        }
        Ok(
            RemoteQueueBinding {
                id: QueueBindingId::random(),
                remote_device_id,
                printer_share_id,
                system_queue_name,
                system_queue_id: None,
                state: QueueBindingState::Installing,
                auto_reconnect: true,
                failure_message: None,
                created_at_ms: now_ms,
                updated_at_ms: now_ms,
            },
        )
    }

    /// Records the system queue that the installation created.
    pub fn installed(&mut self, queue_id: SystemQueueId, now_ms: TimestampMs) -> (r: PrintResult<()>)
        ensures
            updates(old(self)@, final(self)@, r, old(self)@.after_installed(queue_id@, now_ms)),
    {
        if self.state != QueueBindingState::Installing {
            return Err(
                PrintError::InvalidState("only an installing queue can become ready".to_string()),
            );
        }
        self.system_queue_id = Some(queue_id);
        self.state = QueueBindingState::Ready;
        self.failure_message = None;
        self.updated_at_ms = now_ms;
        Ok(())
    }

    /// Starts a failed installation over.
    pub fn retry_installing(&mut self, now_ms: TimestampMs) -> (r: PrintResult<()>)
        ensures
            updates(old(self)@, final(self)@, r, old(self)@.after_retry(now_ms)),
    {
        if self.state != QueueBindingState::Failed {
            return Err(
                PrintError::InvalidState("only a failed queue can retry installation".to_string()),
            );
        }
        self.system_queue_id = None;
        self.state = QueueBindingState::Installing;
        self.failure_message = None;
        self.updated_at_ms = now_ms;
        Ok(())
    }

    /// Notes that the publishing device cannot be reached.
    pub fn source_offline(&mut self, now_ms: TimestampMs)
        ensures
            final(self)@ == old(self)@.after_offline(now_ms),
    {
        if self.state == QueueBindingState::Ready || self.state
            == QueueBindingState::SourceOffline {
            self.state = QueueBindingState::SourceOffline;
            self.updated_at_ms = now_ms;
        }
    }

    /// Notes that the publishing device can be reached again.
    pub fn source_online(&mut self, now_ms: TimestampMs)
        ensures
            final(self)@ == old(self)@.after_online(now_ms),
    {
        if self.state == QueueBindingState::SourceOffline {
            self.state = QueueBindingState::Ready;
            self.updated_at_ms = now_ms;
        }
    }

    /// Starts the removal of a queue that was installed or that failed.
    pub fn begin_removal(&mut self, now_ms: TimestampMs) -> (r: PrintResult<()>)
        ensures
            updates(old(self)@, final(self)@, r, old(self)@.after_begin_removal(now_ms)),
    {
        if self.state == QueueBindingState::Removing {
            return Ok(());
        }
        if self.system_queue_id.is_none() && self.state != QueueBindingState::Failed {
            return Err(PrintError::InvalidState("queue has not been installed".to_string()));
        }
        self.state = QueueBindingState::Removing;
        self.updated_at_ms = now_ms;
        Ok(())
    }

    /// Records a failure.
    pub fn fail(&mut self, message: String, now_ms: TimestampMs)
        ensures
            final(self)@ == old(self)@.after_fail(message@, now_ms),
    {
        self.state = QueueBindingState::Failed;
        self.failure_message = Some(message);
        self.updated_at_ms = now_ms;
    }
}

/// A failed installation can be retried, and the retry can succeed; nothing of
/// the failure is left then.
pub proof fn law_failed_binding_can_retry(
    binding: RemoteQueueBindingView,
    message: Seq<char>,
    queue_id: Seq<char>,
    t1: TimestampMs,
    t2: TimestampMs,
    t3: TimestampMs,
)
    ensures
        binding.after_fail(message, t1).after_retry(t2) matches Ok(again)
            && again.failure_message is None && again.after_installed(queue_id, t3) == Ok::<
            RemoteQueueBindingView,
            PrintErrorView,
        >(
            RemoteQueueBindingView {
                system_queue_id: Some(queue_id),
                state: QueueBindingState::Ready,
                failure_message: None,
                updated_at_ms: t3,
                ..binding
            },
        ),
{
}

/// A queue that is ready or waiting for its source always has a system queue,
/// whatever happens to it.
pub proof fn law_ready_binding_has_queue(
    binding: RemoteQueueBindingView,
    message: Seq<char>,
    queue_id: Seq<char>,
    now_ms: TimestampMs,
)
    requires
        binding.wf(),
    ensures
        binding.after_installed(queue_id, now_ms) matches Ok(b) ==> b.wf(),
        binding.after_retry(now_ms) matches Ok(b) ==> b.wf(),
        binding.after_offline(now_ms).wf(),
        binding.after_online(now_ms).wf(),
        binding.after_begin_removal(now_ms) matches Ok(b) ==> b.wf(),
        binding.after_fail(message, now_ms).wf(),
{
}

/// A queue that loses its source and finds it again is ready if it was ready
/// or waiting for its source, and as before but for the time of the last
/// change; in any other state it is left alone.
pub proof fn law_online_undoes_offline(
    binding: RemoteQueueBindingView,
    t1: TimestampMs,
    t2: TimestampMs,
)
    ensures
        binding.after_offline(t1).after_online(t2) == if binding.state == QueueBindingState::Ready
            || binding.state == QueueBindingState::SourceOffline {
            RemoteQueueBindingView { state: QueueBindingState::Ready, updated_at_ms: t2, ..binding }
        } else {
            binding
        },
{
}

} // verus!
