//! What the operations are for, stated over what goes into them and what comes
//! out.
pub mod answers;
pub mod exchange;
pub mod history;
pub mod ipp;
pub mod jobs;
pub mod lists;
pub mod messages;
pub mod network;
pub mod printing;
pub mod queues;
pub mod shares;
pub mod text;
pub mod uploads;
pub mod values;
pub mod windows;
