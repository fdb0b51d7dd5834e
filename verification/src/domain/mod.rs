//! Printers, shares, queues and jobs, and the rules that they keep.
pub mod capability;
pub mod event;
pub mod id;
pub mod job;
pub mod printer;
pub mod queue_binding;
pub mod share;

use vstd::prelude::*;

pub use capability::{
    ColorMode, DuplexMode, MediaSize, Orientation, PrintResolution, PrinterCapabilities,
};
pub use event::PrintDomainEvent;
pub use id::{
    ClientJobId, DeviceId, LocalPrinterId, NativeJobId, PrintJobId, PrinterShareId, QueueBindingId,
    SystemQueueId,
};
pub use job::{
    PageRange, PrintDocument, PrintJob, PrintJobState, PrintOptions, MAX_COPIES, MAX_DOCUMENT_BYTES,
};
pub use printer::{LocalPrinter, PrinterStatus, PublishedPrinter};
pub use queue_binding::{
    is_managed_remote_queue_name, QueueBindingState, RemoteQueueBinding, REMOTE_QUEUE_PREFIX,
};
pub use share::{PrinterShare, ShareScope, ShareState};

verus! {

/// Milliseconds since the Unix epoch.
pub type TimestampMs = i64;

} // verus!
