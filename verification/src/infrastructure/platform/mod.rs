//! The print systems of operating systems.
pub mod bitmap;
pub mod commands;
pub mod cups;
pub mod json;
pub mod render;
pub mod windows_backend;
