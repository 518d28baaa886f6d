//! Synchronisation: local files, recorded state and change detection.
pub mod engine;
pub mod engine_v2;
pub mod scanner;
pub mod state;
pub mod tracker;

pub use scanner::{FileScanner, LocalFile};
pub use state::{FileState, SyncState, SyncStateManager};
pub use tracker::ChangeTracker;
pub use engine_v2::{SyncMode, SyncStats};
