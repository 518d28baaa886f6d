//! File hashing entry point.
use crate::checksum::{content_md5, md5_hex_digest};
use crate::error::Result;
use vstd::prelude::*;

verus! {

/// The MD5 hash of a file whose bytes are `content` (the caller reads the file): 32 lowercase
/// hexadecimal characters.
pub fn compute_file_hash(content: &[u8]) -> (r: Result<String>)
    ensures
        r matches Ok(h) && h@ == md5_hex_digest(content@) && h@.len() == 32,
{
    Ok(content_md5(content))
}

} // verus!
