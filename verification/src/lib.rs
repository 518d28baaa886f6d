//! Verified core of a one-way file synchronisation tool for Google Drive.
pub mod checksum;
pub mod cli;
pub mod config;
pub mod base;
pub mod error;
pub mod google_drive;
pub mod storage;
pub mod sync;
pub mod text;
pub mod watcher;

pub use error::{Result, RustDriveSyncError};
