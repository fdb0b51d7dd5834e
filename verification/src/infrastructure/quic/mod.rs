//! The print protocol between devices.
pub mod replies;
pub mod tickets;
pub mod printers;
pub mod server;
pub mod upload;
pub mod client;
