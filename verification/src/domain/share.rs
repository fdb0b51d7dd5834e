//! Printers that this machine publishes.
use vstd::prelude::*;
use vstd::string::*;

use crate::domain::capability::{PrinterCapabilities, PrinterCapabilitiesView};
use crate::domain::id::{LocalPrinterId, PrinterShareId};
use crate::domain::printer::{LocalPrinter, LocalPrinterView};
use crate::domain::TimestampMs;
use crate::error::{outcome, updates, PrintError, PrintErrorView, PrintResult};
use crate::text::{blank, is_blank, same};
use crate::unique::is_random_text;

verus! {

/// Who may use a published printer.
#[derive(Debug, Clone, Copy, PartialEq, Eq, Structural)]
pub enum ShareScope {
    PairedDevices,
}

#[derive(Debug, Clone, Copy, PartialEq, Eq, Structural)]
pub enum ShareState {
    Published,
    Suspended,
    Removed,
}

/// A printer that this machine publishes.
#[derive(Debug, PartialEq, Eq)]
pub struct PrinterShare {
    pub id: PrinterShareId,
    pub local_printer_id: LocalPrinterId,
    pub display_name: String,
    pub scope: ShareScope,
    pub state: ShareState,
    pub capabilities: PrinterCapabilities,
    pub capability_revision: u64,
    pub created_at_ms: TimestampMs,
    pub updated_at_ms: TimestampMs,
}

pub struct PrinterShareView {
    pub id: Seq<char>,
    pub local_printer_id: Seq<char>,
    pub display_name: Seq<char>,
    pub scope: ShareScope,
    pub state: ShareState,
    pub capabilities: PrinterCapabilitiesView,
    pub capability_revision: u64,
    pub created_at_ms: TimestampMs,
    pub updated_at_ms: TimestampMs,
}

impl View for PrinterShare {
    type V = PrinterShareView;

    open spec fn view(&self) -> PrinterShareView {
        PrinterShareView {
            id: self.id@,
            local_printer_id: self.local_printer_id@,
            display_name: self.display_name@,
            scope: self.scope,
            state: self.state,
            capabilities: self.capabilities@,
            capability_revision: self.capability_revision,
            created_at_ms: self.created_at_ms,
            updated_at_ms: self.updated_at_ms,
        }
    }
}

impl Clone for PrinterShare {
    fn clone(&self) -> (r: Self)
        ensures
            r@ == self@,
    {
        PrinterShare {
            id: self.id.clone(),
            local_printer_id: self.local_printer_id.clone(),
            display_name: self.display_name.clone(),
            scope: self.scope,
            state: self.state,
            capabilities: self.capabilities.clone(),
            capability_revision: self.capability_revision,
            created_at_ms: self.created_at_ms,
            updated_at_ms: self.updated_at_ms,
        }
    }
}

/// The share, called `id`, that publishing `printer` creates.
pub open spec fn published_share(
    id: Seq<char>,
    printer: LocalPrinterView,
    now_ms: TimestampMs,
) -> PrinterShareView {
    PrinterShareView {
        id,
        local_printer_id: printer.id,
        display_name: printer.display_name,
        scope: ShareScope::PairedDevices,
        state: ShareState::Published,
        capabilities: printer.capabilities,
        capability_revision: 1,
        created_at_ms: now_ms,
        updated_at_ms: now_ms,
    }
}

/// `revision` plus one, unless it is the largest number.
pub open spec fn next_revision(revision: u64) -> u64 {
    if revision == u64::MAX {
        revision
    } else {
        (revision + 1) as u64
    }
}

impl PrinterShareView {
    /// The share after [`PrinterShare::resume`].
    pub open spec fn resumed(self, now_ms: TimestampMs) -> core::result::Result<Self, PrintErrorView> {
        match self.state {
            ShareState::Suspended => Ok(
                PrinterShareView { state: ShareState::Published, updated_at_ms: now_ms, ..self },
            ),
            ShareState::Published => Ok(self),
            ShareState::Removed => Err(
                PrintErrorView::InvalidState("a removed printer share cannot be resumed"@),
            ),
        }
    }

    /// The share after [`PrinterShare::suspend`].
    pub open spec fn suspended(self, now_ms: TimestampMs) -> core::result::Result<Self, PrintErrorView> {
        match self.state {
            ShareState::Published => Ok(
                PrinterShareView { state: ShareState::Suspended, updated_at_ms: now_ms, ..self },
            ),
            ShareState::Suspended => Ok(self),
            ShareState::Removed => Err(
                PrintErrorView::InvalidState("a removed printer share cannot be suspended"@),
            ),
        }
    }

    /// The share after [`PrinterShare::remove`].
    pub open spec fn removed(self, now_ms: TimestampMs) -> Self {
        PrinterShareView { state: ShareState::Removed, updated_at_ms: now_ms, ..self }
    }

    /// Why [`PrinterShare::update_capabilities`] refuses its arguments.
    pub open spec fn update_validation(
        display_name: Seq<char>,
        capabilities: PrinterCapabilitiesView,
    ) -> core::result::Result<(), PrintErrorView> {
        match capabilities.validation() {
            Err(error) => Err(error),
            Ok(_) => if is_blank(display_name) {
                Err(PrintErrorView::Invalid("printer name is empty"@))
            } else {
                Ok(())
            },
        }
    }

    /// Whether the share already has this name and these capabilities.
    pub open spec fn describes(
        self,
        display_name: Seq<char>,
        capabilities: PrinterCapabilitiesView,
    ) -> bool {
        self.display_name == display_name && self.capabilities == capabilities
    }

    /// The share with a new name and new capabilities.
    pub open spec fn described_as(
        self,
        display_name: Seq<char>,
        capabilities: PrinterCapabilitiesView,
        now_ms: TimestampMs,
    ) -> Self {
        if self.describes(display_name, capabilities) {
            self
        } else {
            PrinterShareView {
                display_name,
                capabilities,
                capability_revision: next_revision(self.capability_revision),
                updated_at_ms: now_ms,
                ..self
            }
        }
    }
}

impl PrinterShare {
    /// Publishes a valid printer under a fresh identifier.
    pub fn publish(printer: LocalPrinter, now_ms: TimestampMs) -> (r: PrintResult<Self>)
        ensures
            match printer@.validation() {
                Ok(_) => r matches Ok(share) && is_random_text(share@.id) && share@
                    == published_share(share@.id, printer@, now_ms),
                Err(error) => r matches Err(e) && e@ == error,
            },
    {
        match printer.validate() {
            Ok(_) => {},
            Err(error) => {
                return Err(error);
            },
        }
        Ok(
            PrinterShare {
                id: PrinterShareId::random(),
                local_printer_id: printer.id,
                display_name: printer.display_name,
                scope: ShareScope::PairedDevices,
                state: ShareState::Published,
                capabilities: printer.capabilities,
                capability_revision: 1,
                created_at_ms: now_ms,
                updated_at_ms: now_ms,
            },
        )
    }

    /// Publishes a suspended share again.
    pub fn resume(&mut self, now_ms: TimestampMs) -> (r: PrintResult<()>)
        ensures
            updates(old(self)@, final(self)@, r, old(self)@.resumed(now_ms)),
    {
        match self.state {
            ShareState::Suspended => {
                self.state = ShareState::Published;
                self.updated_at_ms = now_ms;
                Ok(())
            },
            ShareState::Published => Ok(()),
            ShareState::Removed => Err(
                PrintError::InvalidState("a removed printer share cannot be resumed".to_string()),
            ),
        }
    }

    /// Withdraws a published share for the time being.
    pub fn suspend(&mut self, now_ms: TimestampMs) -> (r: PrintResult<()>)
        ensures
            updates(old(self)@, final(self)@, r, old(self)@.suspended(now_ms)),
    {
        match self.state {
            ShareState::Published => {
                self.state = ShareState::Suspended;
                self.updated_at_ms = now_ms;
                Ok(())
            },
            ShareState::Suspended => Ok(()),
            ShareState::Removed => Err(
                PrintError::InvalidState("a removed printer share cannot be suspended".to_string()),
            ),
        }
    }

    /// Withdraws the share for good.
    pub fn remove(&mut self, now_ms: TimestampMs)
        ensures
            final(self)@ == old(self)@.removed(now_ms),
    {
        self.state = ShareState::Removed;
        self.updated_at_ms = now_ms;
    }

    /// Takes over a printer's current name and capabilities; tells whether
    /// that changed anything.
    pub fn update_capabilities(
        &mut self,
        display_name: String,
        capabilities: PrinterCapabilities,
        now_ms: TimestampMs,
    ) -> (r: PrintResult<bool>)
        ensures
            match PrinterShareView::update_validation(display_name@, capabilities@) {
                Ok(_) => {
                    &&& outcome(r) == Ok::<bool, PrintErrorView>(
                        !old(self)@.describes(display_name@, capabilities@),
                    )
                    &&& final(self)@ == old(self)@.described_as(display_name@, capabilities@, now_ms)
                },
                Err(error) => {
                    &&& outcome(r) == Err::<bool, PrintErrorView>(error)
                    &&& final(self)@ == old(self)@
                },
            },
    {
        match capabilities.validate() {
            Ok(_) => {},
            Err(error) => {
                return Err(error);
            },
        }
        if blank(display_name.as_str()) {
            return Err(PrintError::Invalid("printer name is empty".to_string()));
        }
        let changed = !same(self.display_name.as_str(), display_name.as_str())
            || !self.capabilities.same(&capabilities);
        if changed {
            self.display_name = display_name;
            self.capabilities = capabilities;
            self.capability_revision = self.capability_revision.saturating_add(1);
            self.updated_at_ms = now_ms;
        }
        Ok(changed)
    }
}

/// Nothing brings a removed share back.
pub proof fn law_removed_share_stays_removed(
    share: PrinterShareView,
    display_name: Seq<char>,
    capabilities: PrinterCapabilitiesView,
    now_ms: TimestampMs,
)
    requires
        share.state == ShareState::Removed,
    ensures
        share.resumed(now_ms) is Err,
        share.suspended(now_ms) is Err,
        share.removed(now_ms).state == ShareState::Removed,
        share.described_as(display_name, capabilities, now_ms).state == ShareState::Removed,
{
}

/// Suspending a share and resuming it leaves it published, and as before but
/// for the time of the last change; a share that was removed can be neither
/// suspended nor resumed.
pub proof fn law_resume_undoes_suspend(
    share: PrinterShareView,
    first_ms: TimestampMs,
    second_ms: TimestampMs,
)
    ensures
        share.state != ShareState::Removed ==> (share.suspended(first_ms) matches Ok(paused)
            && paused.resumed(second_ms) == Ok::<PrinterShareView, PrintErrorView>(
            PrinterShareView { state: ShareState::Published, updated_at_ms: second_ms, ..share },
        )),
        share.state == ShareState::Removed ==> {
            &&& share.suspended(first_ms) == Err::<PrinterShareView, PrintErrorView>(
                PrintErrorView::InvalidState("a removed printer share cannot be suspended"@),
            )
            &&& share.resumed(second_ms) == Err::<PrinterShareView, PrintErrorView>(
                PrintErrorView::InvalidState("a removed printer share cannot be resumed"@),
            )
        },
{
}

/// The revision never goes back, and as long as it can grow it grows exactly
/// when the name or the capabilities change.
pub proof fn law_revision_counts_changes(
    share: PrinterShareView,
    display_name: Seq<char>,
    capabilities: PrinterCapabilitiesView,
    now_ms: TimestampMs,
)
    ensures
        ({
            let after = share.described_as(display_name, capabilities, now_ms);
            &&& after.describes(display_name, capabilities)
            &&& after.capability_revision >= share.capability_revision
            &&& share.capability_revision < u64::MAX ==> (after.capability_revision
                > share.capability_revision <==> !share.describes(display_name, capabilities))
            &&& after.id == share.id && after.local_printer_id == share.local_printer_id
            &&& after.state == share.state && after.created_at_ms == share.created_at_ms
        }),
{
}

/// Repeating an update changes nothing more.
pub proof fn law_update_is_idempotent(
    share: PrinterShareView,
    display_name: Seq<char>,
    capabilities: PrinterCapabilitiesView,
    first_ms: TimestampMs,
    second_ms: TimestampMs,
)
    ensures
        share.described_as(display_name, capabilities, first_ms).described_as(
            display_name,
            capabilities,
            second_ms,
        ) == share.described_as(display_name, capabilities, first_ms),
{
}

} // verus!
