//! MD5 checksums of file contents, as lowercase hexadecimal text.
use md5::Digest;
use vstd::prelude::*;

verus! {

/// The lowercase hexadecimal MD5 digest of `bytes`, as the `md-5` crate computes it.
pub uninterp spec fn md5_hex_digest(bytes: Seq<u8>) -> Seq<char>;

/// Computes the MD5 digest of `content` with `md5::Md5` (`new`, `update`, `finalize`) and
/// formats it with `{:x}`. The result is the digest named `md5_hex_digest`; it has 32
/// characters, two for each of the 16 bytes of the digest.
#[verifier::external_body]
pub(crate) fn md5_hex(content: &[u8]) -> (r: String)
    ensures
        r@ == md5_hex_digest(content@),
        r@.len() == 32,
{
    let mut hasher = md5::Md5::new();
    hasher.update(content);
    format!("{:x}", hasher.finalize())
}

/// The MD5 checksum of a file's content, as the drive reports checksums: 32 lowercase
/// hexadecimal characters.
pub fn content_md5(content: &[u8]) -> (r: String)
    ensures
        r@ == md5_hex_digest(content@),
        r@.len() == 32,
{
    md5_hex(content)
}

/// An MD5 computation fed with a file's bytes piece by piece, so that a large file is never
/// held in memory whole. It holds md-5's incremental hasher (`md5::Md5`), whose type the
/// library cannot declare, so the struct is kept opaque.
#[verifier::external_body]
pub struct Md5Stream {
    inner: md5::Md5,
}

/// The bytes fed to an MD5 computation so far, in order.
pub uninterp spec fn md5_consumed(s: Md5Stream) -> Seq<u8>;

/// Starts an MD5 computation with `md5::Md5::new`: nothing has been fed yet.
#[verifier::external_body]
fn stream_start() -> (r: Md5Stream)
    ensures
        md5_consumed(r) == Seq::<u8>::empty(),
{
    Md5Stream { inner: md5::Md5::new() }
}

/// Feeds `chunk` to the computation with `Digest::update`, which appends it to the input.
#[verifier::external_body]
fn stream_feed(s: &mut Md5Stream, chunk: &[u8])
    ensures
        md5_consumed(*final(s)) == md5_consumed(*old(s)) + chunk@,
{
    s.inner.update(chunk)
}

/// Ends the computation with `Digest::finalize` and formats the digest with `{:x}`: the
/// digest of all the bytes fed, 32 characters.
#[verifier::external_body]
fn stream_digest(s: Md5Stream) -> (r: String)
    ensures
        r@ == md5_hex_digest(md5_consumed(s)),
        r@.len() == 32,
{
    format!("{:x}", s.inner.finalize())
}

impl Md5Stream {
    /// A computation that has been fed nothing.
    pub fn new() -> (r: Self)
        ensures
            md5_consumed(r) == Seq::<u8>::empty(),
    {
        stream_start()
    }

    /// Feeds the next piece of the content.
    pub fn update(&mut self, chunk: &[u8])
        ensures
            md5_consumed(*final(self)) == md5_consumed(*old(self)) + chunk@,
    {
        stream_feed(self, chunk)
    }

    /// The checksum of everything fed, as `content_md5` gives it for the whole content.
    pub fn finish(self) -> (r: String)
        ensures
            r@ == md5_hex_digest(md5_consumed(self)),
            r@.len() == 32,
    {
        stream_digest(self)
    }
}

} // verus!
