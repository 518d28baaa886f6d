//! Values shared by storage back ends.
pub mod folders;
pub mod models;

pub use models::{FileInfo, FolderInfo, UploadOptions};
