//! Upload rules: which method is used, when the hash is computed, and checksum checks.
use crate::error::{Result, RustDriveSyncError};
use crate::google_drive::models::{LocalFileMetadata, UploadOptions, UploadedFile};
use vstd::prelude::*;

verus! {

/// Files larger than this (5 MiB) may use a resumable upload; smaller ones have their MD5
/// computed before upload.
pub open spec fn simple_upload_limit() -> u64 {
    5242880
}

/// Whether a file of `size` bytes is sent with a resumable upload: when the options allow it
/// and the file is larger than 5 MiB.
pub fn use_resumable_upload(options: &UploadOptions, size: u64) -> (r: bool)
    ensures
        r == (options.use_resumable && size > simple_upload_limit()),
{
    options.use_resumable && size > 5 * 1024 * 1024
}

/// Whether the MD5 of a file of `size` bytes is computed before the upload: when the file is
/// smaller than 5 MiB (larger ones are hashed while streamed).
pub fn hash_before_upload(size: u64) -> (r: bool)
    ensures
        r == (size < simple_upload_limit()),
{
    size < 5 * 1024 * 1024
}

/// The MIME type guessed from the extension of `path` by `mime_guess`.
pub uninterp spec fn guessed_mime_type(path: Seq<char>) -> Seq<char>;

/// Guesses the MIME type of `path` from its extension with
/// `mime_guess::from_path(..).first_or_octet_stream()`; unknown extensions give
/// "application/octet-stream". The result is the type named `guessed_mime_type`.
#[verifier::external_body]
fn guess_from_extension(path: &str) -> (r: String)
    ensures
        r@ == guessed_mime_type(path@),
{
    mime_guess::from_path(path).first_or_octet_stream().to_string()
}

/// The MIME type sent with the upload of the file at `path`, guessed from its extension.
pub fn detect_mime_type(path: &str) -> (r: String)
    ensures
        r@ == guessed_mime_type(path@),
{
    guess_from_extension(path)
}

/// Checks the MD5 that the drive reports for an uploaded file against the local one: a
/// mismatch error when both are known and differ, success otherwise.
pub fn verify_checksum(remote_md5: &Option<String>, metadata: &LocalFileMetadata) -> (r: Result<
    (),
>)
    ensures
        match (*remote_md5, metadata.md5_hash) {
            (Some(remote), Some(local)) => if remote@ != local@ {
                r matches Err(RustDriveSyncError::ChecksumMismatch { file, expected, actual })
                    && file == metadata.name && expected == local && actual == remote
            } else {
                r is Ok
            },
            _ => r is Ok,
        },
{
    match (remote_md5, &metadata.md5_hash) {
        (Some(remote), Some(local)) => {
            if !(*remote == *local) {
                return Err(
                    RustDriveSyncError::ChecksumMismatch {
                        file: metadata.name.clone(),
                        expected: local.clone(),
                        actual: remote.clone(),
                    },
                );
            }
            Ok(())
        },
        _ => Ok(()),
    }
}

/// What an upload reports, from the drive's answer and the local file: a missing identifier
/// becomes the empty text, a missing name the local name, the size is the local size, and
/// the checksum is the one computed while streaming when there is one (`streamed_md5`),
/// otherwise the one the drive reported.
pub fn uploaded_file(
    remote_id: Option<String>,
    remote_name: Option<String>,
    remote_md5: Option<String>,
    web_view_link: Option<String>,
    metadata: &LocalFileMetadata,
    streamed_md5: Option<String>,
) -> (r: UploadedFile)
    ensures
        r.file_id@ == match remote_id {
            Some(t) => t@,
            None => Seq::<char>::empty(),
        },
        r.name == match remote_name {
            Some(t) => t,
            None => metadata.name,
        },
        r.size == metadata.size,
        r.md5_checksum == match streamed_md5 {
            Some(h) => Some(h),
            None => remote_md5,
        },
        r.web_view_link == web_view_link,
{
    UploadedFile {
        file_id: match remote_id {
            Some(t) => t,
            None => String::new(),
        },
        name: match remote_name {
            Some(t) => t,
            None => metadata.name.clone(),
        },
        size: metadata.size,
        md5_checksum: match streamed_md5 {
            Some(h) => Some(h),
            None => remote_md5,
        },
        web_view_link,
    }
}

} // verus!
