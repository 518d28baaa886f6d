//! Upload options and descriptions of remote folders and files.
use vstd::prelude::*;

verus! {

/// Options of an upload to a storage back end.
#[derive(Debug)]
pub struct UploadOptions {
    /// Folder that receives the file.
    pub parent_folder_id: Option<String>,
    /// Whether a resumable upload is used.
    pub use_resumable: bool,
    /// Whether the checksum is verified after the upload.
    pub verify_checksum: bool,
}

impl Clone for UploadOptions {
    fn clone(&self) -> (r: Self)
        ensures
            r == *self,
    {
        UploadOptions {
            parent_folder_id: match &self.parent_folder_id {
                Some(p) => Some(p.clone()),
                None => None,
            },
            use_resumable: self.use_resumable,
            verify_checksum: self.verify_checksum,
        }
    }
}

impl Default for UploadOptions {
    /// No folder, no resumable upload, no verification.
    fn default() -> (r: Self)
        ensures
            r.parent_folder_id is None,
            !r.use_resumable,
            !r.verify_checksum,
    {
        UploadOptions { parent_folder_id: None, use_resumable: false, verify_checksum: false }
    }
}

impl UploadOptions {
    /// Upload into `parent_id`, resumable and verified.
    pub fn with_parent(parent_id: String) -> (r: Self)
        ensures
            r.parent_folder_id == Some(parent_id),
            r.use_resumable,
            r.verify_checksum,
    {
        UploadOptions { parent_folder_id: Some(parent_id), use_resumable: true, verify_checksum: true }
    }

    /// Resumable and verified upload, with no folder given.
    pub fn resumable() -> (r: Self)
        ensures
            r.parent_folder_id is None,
            r.use_resumable,
            r.verify_checksum,
    {
        UploadOptions { parent_folder_id: None, use_resumable: true, verify_checksum: true }
    }
}

/// A folder of a storage back end.
#[derive(Debug)]
pub struct FolderInfo {
    pub id: String,
    pub name: String,
    pub parent_id: Option<String>,
}

/// A file of a storage back end.
#[derive(Debug)]
pub struct FileInfo {
    pub id: String,
    pub name: String,
    pub size: u64,
    pub mime_type: String,
    pub modified_time: Option<i64>,
    pub md5_checksum: Option<String>,
}

} // verus!
