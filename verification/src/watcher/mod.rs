//! File-system events and the rules that decide which are acted upon.
pub mod file_watcher;

pub use file_watcher::{FileEvent, FileEventType, WatcherConfig};
