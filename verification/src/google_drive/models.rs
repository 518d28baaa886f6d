//! Values exchanged with the remote drive.
use vstd::prelude::*;

verus! {

/// A local file about to be uploaded.
#[derive(Debug)]
pub struct LocalFileMetadata {
    /// Full path of the local file.
    pub path: String,
    /// Name given to the remote file.
    pub name: String,
    /// Size in bytes.
    pub size: u64,
    /// MIME type.
    pub mime_type: String,
    /// MD5 computed locally, when known.
    pub md5_hash: Option<String>,
}

/// A file as the drive holds it after an upload.
#[derive(Debug)]
pub struct UploadedFile {
    /// Identifier on the drive (empty when none was reported).
    pub file_id: String,
    /// Name on the drive.
    pub name: String,
    /// Size in bytes.
    pub size: u64,
    /// MD5 of the content, when known.
    pub md5_checksum: Option<String>,
    /// Link to view the file, when reported.
    pub web_view_link: Option<String>,
}

/// A folder on the remote drive.
#[derive(Debug)]
pub struct FolderInfo {
    pub id: String,
    pub name: String,
    pub parent_id: Option<String>,
}

/// Filters of a file listing.
#[derive(Debug)]
pub struct ListFilesFilter {
    /// Only files in this folder.
    pub parent_folder_id: Option<String>,
    /// Only files whose name contains this text.
    pub name_contains: Option<String>,
    /// Only files of this MIME type.
    pub mime_type: Option<String>,
    /// At most this many results.
    pub max_results: Option<i32>,
}

impl Default for ListFilesFilter {
    /// No filter.
    fn default() -> (r: Self)
        ensures
            r.parent_folder_id is None,
            r.name_contains is None,
            r.mime_type is None,
            r.max_results is None,
    {
        ListFilesFilter {
            parent_folder_id: None,
            name_contains: None,
            mime_type: None,
            max_results: None,
        }
    }
}

/// The unit of upload chunks: 256 KiB.
pub open spec fn chunk_unit() -> int {
    262144
}

/// The chunk size used for a requested size: the largest multiple of 256 KiB that does not
/// exceed it, or 256 KiB when the request is smaller than that.
pub open spec fn rounded_chunk(size: int) -> int {
    if size < chunk_unit() {
        chunk_unit()
    } else {
        size - size % chunk_unit()
    }
}

/// Options of an upload.
#[derive(Debug)]
pub struct UploadOptions {
    /// Folder that receives the file.
    pub parent_folder_id: Option<String>,
    /// Whether large files use a resumable upload.
    pub use_resumable: bool,
    /// Chunk size of a resumable upload, in bytes (a multiple of 256 KiB).
    pub chunk_size: usize,
    /// Whether the MD5 reported back is checked against the local one.
    pub verify_checksum: bool,
}

impl Default for UploadOptions {
    /// No parent folder, resumable, 5 MiB chunks, checksum verified.
    fn default() -> (r: Self)
        ensures
            r.parent_folder_id is None,
            r.use_resumable,
            r.chunk_size == 5 * 1024 * 1024,
            r.verify_checksum,
    {
        UploadOptions {
            parent_folder_id: None,
            use_resumable: true,
            chunk_size: 5 * 1024 * 1024,
            verify_checksum: true,
        }
    }
}

impl UploadOptions {
    /// The default options with `parent_folder_id` as the receiving folder.
    pub fn with_parent(parent_folder_id: String) -> (r: Self)
        ensures
            r.parent_folder_id == Some(parent_folder_id),
            r.use_resumable,
            r.chunk_size == 5 * 1024 * 1024,
            r.verify_checksum,
    {
        let d = UploadOptions::default();
        UploadOptions { parent_folder_id: Some(parent_folder_id), ..d }
    }

    /// The same options with the chunk size rounded from `size` (see `rounded_chunk`).
    pub fn with_chunk_size(self, size: usize) -> (r: Self)
        ensures
            r.chunk_size == rounded_chunk(size as int),
            r.chunk_size % 262144 == 0,
            r.chunk_size > 0,
            r.parent_folder_id == self.parent_folder_id,
            r.use_resumable == self.use_resumable,
            r.verify_checksum == self.verify_checksum,
    {
        let unit: usize = 256 * 1024;
        let mut chunk = (size / unit) * unit;
        assert((size / unit) * unit == size - size % unit) by (nonlinear_arith)
            requires
                unit == 262144,
        ;
        if chunk == 0 {
            chunk = unit;
        }
        UploadOptions { chunk_size: chunk, ..self }
    }

    /// The same options with resumable uploads on or off.
    pub fn with_resumable(self, resumable: bool) -> (r: Self)
        ensures
            r.use_resumable == resumable,
            r.parent_folder_id == self.parent_folder_id,
            r.chunk_size == self.chunk_size,
            r.verify_checksum == self.verify_checksum,
    {
        UploadOptions { use_resumable: resumable, ..self }
    }
}

} // verus!
