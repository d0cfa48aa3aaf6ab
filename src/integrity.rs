//! Integrity of a stored file: its bytes are streamed through MD5 and the
//! digest, written as lower-case hex, is compared with the catalog's.
use vstd::prelude::*;
use crate::error::DownloadError;
use crate::text::{bytes_to_hex_string, hex_of};

verus! {

/// An MD5 hasher of the md-5 crate. Verus cannot read the declaration of
/// `md5::Md5` (its typenum bounds), so the hasher is held here, opaque, and
/// spoken of through `md5_input`.
#[verifier::external_body]
pub struct Md5Hasher {
    inner: md5::Md5,
}

/// The bytes an MD5 hasher has absorbed so far, in order.
pub uninterp spec fn md5_input(h: Md5Hasher) -> Seq<u8>;

/// The MD5 digest of a byte sequence.
pub uninterp spec fn md5_digest(data: Seq<u8>) -> Seq<u8>;

/// Relies on `Digest::new` of md5::Md5: a hasher that has absorbed nothing.
#[verifier::external_body]
fn md5_new() -> (h: Md5Hasher)
    ensures
        md5_input(h) == Seq::<u8>::empty(),
{
    Md5Hasher { inner: <md5::Md5 as md5::Digest>::new() }
}

/// Relies on `Digest::update` of md5::Md5: the hasher absorbs `data` after
/// what it already holds.
#[verifier::external_body]
fn md5_update(h: &mut Md5Hasher, data: &[u8])
    ensures
        md5_input(*final(h)) == md5_input(*old(h)) + data@,
{
    md5::Digest::update(&mut h.inner, data)
}

/// Relies on `Digest::finalize` of md5::Md5: the 16-byte MD5 digest of all
/// absorbed bytes.
#[verifier::external_body]
fn md5_finalize(h: Md5Hasher) -> (r: Vec<u8>)
    ensures
        r@ == md5_digest(md5_input(h)),
        r@.len() == 16,
{
    md5::Digest::finalize(h.inner).to_vec()
}

/// Whether `digest`, written as lower-case hex, equals `expected` exactly
/// (case-sensitive).
pub fn digest_matches(digest: &[u8], expected: &str) -> (r: bool)
    ensures
        r == (hex_of(digest@) == expected@),
{
    let calculated = bytes_to_hex_string(digest);
    let expected = String::from_str(expected);
    calculated == expected
}

/// An MD5 computation fed chunk by chunk, as a file is read.
pub struct FileDigest {
    hasher: Md5Hasher,
}

impl View for FileDigest {
    type V = Seq<u8>;

    /// The bytes fed so far.
    closed spec fn view(&self) -> Seq<u8> {
        md5_input(self.hasher)
    }
}

impl FileDigest {
    /// A computation that has been fed nothing.
    pub fn new() -> (d: FileDigest)
        ensures
            d@ == Seq::<u8>::empty(),
    {
        FileDigest { hasher: md5_new() }
    }

    /// Feeds the next chunk of the file.
    pub fn update(&mut self, chunk: &[u8])
        ensures
            final(self)@ == old(self)@ + chunk@,
    {
        md5_update(&mut self.hasher, chunk);
    }

    /// Whether the MD5 digest of everything fed, as lower-case hex, equals
    /// `expected` exactly.
    pub fn matches(self, expected: &str) -> (r: bool)
        ensures
            r == (hex_of(md5_digest(self@)) == expected@),
    {
        let digest = md5_finalize(self.hasher);
        digest_matches(digest.as_slice(), expected)
    }
}

/// Ends the check of a stored file: success where the MD5 digest of
/// everything fed, as lower-case hex, equals `expected`, else `ValidationFailed`.
pub fn finish_validation(digest: FileDigest, expected: &str) -> (r: Result<(), DownloadError>)
    ensures
        r is Ok <==> hex_of(md5_digest(digest@)) == expected@,
        r matches Err(e) ==> e == DownloadError::ValidationFailed,
{
    if digest.matches(expected) {
        Ok(())
    } else {
        Err(DownloadError::ValidationFailed)
    }
}

} // verus!
