//! What the crate does for its callers.
//!
//! Storage, the spooler of the operating system and the network answer late
//! and may fail, so each operation is a flow: it says what it needs next, is
//! resumed with the answer, and ends with a result. An answer to a question
//! that a flow has not asked leaves it as it was.
pub mod job_flow;
pub mod job_lists;
pub mod job_service;
pub mod ports;
pub mod queue_service;
pub mod runtime;
pub mod share_service;
