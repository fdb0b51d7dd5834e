//! Printers of this machine and printers that other devices publish.
use vstd::prelude::*;
use vstd::string::*;

use crate::domain::capability::{PrinterCapabilities, PrinterCapabilitiesView};
use crate::domain::id::{DeviceId, LocalPrinterId, PrinterShareId};
use crate::error::{outcome, PrintError, PrintErrorView, PrintResult};
use crate::text::{blank, is_blank};

verus! {

#[derive(Debug, Clone, Copy, PartialEq, Eq, Structural)]
pub enum PrinterStatus {
    Ready,
    Busy,
    Offline,
    Error,
    Unknown,
}

/// A printer of this machine.
#[derive(Debug, PartialEq, Eq)]
pub struct LocalPrinter {
    pub id: LocalPrinterId,
    pub display_name: String,
    pub status: PrinterStatus,
    pub connection_kind: String,
    pub is_default: bool,
    pub capabilities: PrinterCapabilities,
}

pub struct LocalPrinterView {
    pub id: Seq<char>,
    pub display_name: Seq<char>,
    pub status: PrinterStatus,
    pub connection_kind: Seq<char>,
    pub is_default: bool,
    pub capabilities: PrinterCapabilitiesView,
}

impl View for LocalPrinter {
    type V = LocalPrinterView;

    open spec fn view(&self) -> LocalPrinterView {
        LocalPrinterView {
            id: self.id@,
            display_name: self.display_name@,
            status: self.status,
            connection_kind: self.connection_kind@,
            is_default: self.is_default,
            capabilities: self.capabilities@,
        }
    }
}

impl Clone for LocalPrinter {
    fn clone(&self) -> (r: Self)
        ensures
            r@ == self@,
    {
        LocalPrinter {
            id: self.id.clone(),
            display_name: self.display_name.clone(),
            status: self.status,
            connection_kind: self.connection_kind.clone(),
            is_default: self.is_default,
            capabilities: self.capabilities.clone(),
        }
    }
}

impl LocalPrinterView {
    /// What [`LocalPrinter::validate`] finds.
    pub open spec fn validation(self) -> core::result::Result<(), PrintErrorView> {
        if is_blank(self.display_name) {
            Err(PrintErrorView::Invalid("printer name is empty"@))
        } else {
            self.capabilities.validation()
        }
    }
}

impl LocalPrinter {
    /// Checks that the printer has a name and valid capabilities.
    pub fn validate(&self) -> (r: PrintResult<()>)
        ensures
            outcome(r) == self@.validation(),
    {
        if blank(self.display_name.as_str()) {
            return Err(PrintError::Invalid("printer name is empty".to_string()));
        }
        self.capabilities.validate()
    }
}

/// A printer as another device sees it.
#[derive(Debug, PartialEq, Eq)]
pub struct PublishedPrinter {
    pub source_device_id: DeviceId,
    pub source_device_name: String,
    pub share_id: PrinterShareId,
    pub display_name: String,
    pub status: PrinterStatus,
    pub capabilities: PrinterCapabilities,
    pub capability_revision: u64,
}

pub struct PublishedPrinterView {
    pub source_device_id: Seq<char>,
    pub source_device_name: Seq<char>,
    pub share_id: Seq<char>,
    pub display_name: Seq<char>,
    pub status: PrinterStatus,
    pub capabilities: PrinterCapabilitiesView,
    pub capability_revision: u64,
}

impl View for PublishedPrinter {
    type V = PublishedPrinterView;

    open spec fn view(&self) -> PublishedPrinterView {
        PublishedPrinterView {
            source_device_id: self.source_device_id@,
            source_device_name: self.source_device_name@,
            share_id: self.share_id@,
            display_name: self.display_name@,
            status: self.status,
            capabilities: self.capabilities@,
            capability_revision: self.capability_revision,
        }
    }
}

impl Clone for PublishedPrinter {
    fn clone(&self) -> (r: Self)
        ensures
            r@ == self@,
    {
        PublishedPrinter {
            source_device_id: self.source_device_id.clone(),
            source_device_name: self.source_device_name.clone(),
            share_id: self.share_id.clone(),
            display_name: self.display_name.clone(),
            status: self.status,
            capabilities: self.capabilities.clone(),
            capability_revision: self.capability_revision,
        }
    }
}

} // verus!
