//! Printer sharing between the devices of a local network.
//!
//! A device publishes its printers, and another device installs a local queue
//! that forwards jobs to the publisher. This crate holds the rules: what a
//! job goes through, what is shared with whom, how the protocols are spoken,
//! and what the print systems are asked to do. It performs no input or output
//! of its own. Operations that wait for the outside world are flows, which
//! say what they need and are resumed with the answer.
pub mod application;
pub mod bytes;
pub mod domain;
pub mod error;
pub mod hash;
pub mod infrastructure;
pub mod laws;
pub mod model;
pub mod order;
pub mod parts;
pub mod text;
pub mod unique;

pub use application::job_service::PrintJobService;
pub use application::queue_service::SystemQueueService;
pub use application::share_service::PrinterShareService;
pub use domain::{
    is_managed_remote_queue_name, ClientJobId, ColorMode, DeviceId, DuplexMode, LocalPrinter,
    LocalPrinterId, MediaSize, NativeJobId, Orientation, PageRange, PrintDocument, PrintDomainEvent,
    PrintJob, PrintJobId, PrintJobState, PrintOptions, PrintResolution, PrinterCapabilities,
    PrinterShare, PrinterShareId, PrinterStatus, PublishedPrinter, QueueBindingId,
    QueueBindingState, RemoteQueueBinding, ShareScope, ShareState, SystemQueueId, TimestampMs,
    MAX_COPIES, MAX_DOCUMENT_BYTES, REMOTE_QUEUE_PREFIX,
};
pub use error::{IoErrorKind, PrintError, PrintResult};
