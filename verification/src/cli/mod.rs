//! Command-line decisions.
pub mod commands;

pub use commands::resolve_sync_mode;
