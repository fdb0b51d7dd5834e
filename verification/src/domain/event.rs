//! What the domain tells the outside world.
use vstd::prelude::*;

use crate::domain::id::{PrintJobId, PrinterShareId, QueueBindingId};
use crate::domain::job::PrintJobState;
use crate::domain::share::ShareState;

verus! {

/// Something that happened to a share, a queue or a job.
#[allow(inconsistent_fields)]
#[derive(Debug, PartialEq, Eq)]
pub enum PrintDomainEvent {
    ShareStateChanged { share_id: PrinterShareId, state: ShareState },
    QueueBindingChanged { binding_id: QueueBindingId },
    JobStateChanged { job_id: PrintJobId, state: PrintJobState },
}

#[allow(inconsistent_fields)]
pub enum PrintDomainEventView {
    ShareStateChanged { share_id: Seq<char>, state: ShareState },
    QueueBindingChanged { binding_id: Seq<char> },
    JobStateChanged { job_id: Seq<char>, state: PrintJobState },
}

impl View for PrintDomainEvent {
    type V = PrintDomainEventView;

    open spec fn view(&self) -> PrintDomainEventView {
        match self {
            PrintDomainEvent::ShareStateChanged { share_id, state } => {
                PrintDomainEventView::ShareStateChanged { share_id: share_id@, state: *state }
            },
            PrintDomainEvent::QueueBindingChanged { binding_id } => {
                PrintDomainEventView::QueueBindingChanged { binding_id: binding_id@ }
            },
            PrintDomainEvent::JobStateChanged { job_id, state } => {
                PrintDomainEventView::JobStateChanged { job_id: job_id@, state: *state }
            },
        }
    }
}

impl Clone for PrintDomainEvent {
    fn clone(&self) -> (r: Self)
        ensures
            r@ == self@,
    {
        match self {
            PrintDomainEvent::ShareStateChanged { share_id, state } => {
                PrintDomainEvent::ShareStateChanged { share_id: share_id.clone(), state: *state }
            },
            PrintDomainEvent::QueueBindingChanged { binding_id } => {
                PrintDomainEvent::QueueBindingChanged { binding_id: binding_id.clone() }
            },
            PrintDomainEvent::JobStateChanged { job_id, state } => {
                PrintDomainEvent::JobStateChanged { job_id: job_id.clone(), state: *state }
            },
        }
    }
}

} // verus!
