//! The first engine's names, kept for callers that use them.
pub use super::engine_v2::{SyncMode, SyncStats};
