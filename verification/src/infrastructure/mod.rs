//! Protocols, platforms and storage.
pub mod ipp;
pub mod messages;
pub mod persistence;
pub mod platform;
pub mod quic;
pub mod ranges;
pub mod spool;
pub mod wire;
