//! The Internet Printing Protocol bridge between local print queues and the
//! printers of other devices.
pub mod request;
pub mod response;
pub mod options;
pub mod printer;
pub mod printer_parts;
pub mod jobs;
pub mod message;
pub mod activity;
pub mod bridge;
