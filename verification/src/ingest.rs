//! The ingest pipeline's computing core: a digesting accumulator fed by the
//! transport chunk by chunk, and the check of the declared digest against
//! the computed one.
//!
//! An upload's body carries exactly two parts, in order: `file` (the raw
//! bytes) and `file-hash` (the digest the client declares, hex-encoded).
//! A malformed body is a protocol error, rejected before any catalog
//! mutation; a digest mismatch is a declared business outcome, not an error.

use vstd::prelude::*;
use vstd::string::StringExecFns;

use crate::encoding::utf8_string;
use crate::hexstr::hex_of;
use crate::results::UploadedData;
use crate::sha256::{sha256_hex, sha256_of};

verus! {

/// A protocol error of the upload body: rejected before any storage
/// mutation.
#[derive(Debug)]
pub enum UploadError {
    /// The body holds no parts at all.
    FilePartMissing,
    /// The first part is not named `file`.
    FilePartMisplaced,
    /// There is no second part.
    FileHashPartMissing,
    /// The second part is not named `file-hash`.
    FileHashPartMisplaced,
    /// The declared digest is not text.
    FileHashNotText,
}

/// One part of a multipart body, already framed by the transport.
pub struct UploadPart {
    /// The part's name from its headers.
    pub name: String,
    /// The part's raw bytes.
    pub data: Vec<u8>,
}

/// The digesting accumulator: every byte handed to the blob store also runs
/// through here, so the digest is computed over exactly the bytes the blob
/// store received.
pub struct DigestDataStreamInner {
    /// The bytes received so far, in order: the digest state.
    pub data: Vec<u8>,
    /// Running byte counter.
    pub size: u64,
}

impl DigestDataStreamInner {
    /// An empty accumulator.
    pub fn new() -> (r: DigestDataStreamInner)
        ensures
            r.data@ == Seq::<u8>::empty(),
            r.size == 0,
    {
        DigestDataStreamInner { data: Vec::new(), size: 0 }
    }

    /// Feed one chunk into the digest state.
    pub fn hash_update(&mut self, bytes: &[u8])
        ensures
            final(self).data@ == old(self).data@ + bytes@,
            final(self).size == old(self).size,
    {
        self.data.extend_from_slice(bytes);
    }

    /// Count `s` more bytes as received.
    pub fn size_inc(&mut self, s: usize)
        requires
            old(self).size + s <= u64::MAX,
        ensures
            final(self).size == old(self).size + s,
            final(self).data@ == old(self).data@,
    {
        self.size = self.size + s as u64;
    }
}

/// Whether a declared digest matches the bytes received: the declared text
/// must equal, character for character, the lower-case hex of the SHA-256
/// digest of those bytes.
pub open spec fn digest_matches(data: Seq<u8>, declared: Seq<char>) -> bool {
    declared == hex_of(sha256_of(data))
}

/// Compare the computed digest of everything the accumulator received
/// against the digest the client declared.
///
/// A match yields the size received and the computed digest; anything else
/// is a digest mismatch, a declared business outcome.
pub fn finish_upload(inner: DigestDataStreamInner, hash_declared: &str) -> (r: UploadedData)
    ensures
        digest_matches(inner.data@, hash_declared@) ==> (r matches UploadedData::Success(
            size,
            hash,
        ) && size == inner.size && hash@ == hex_of(sha256_of(inner.data@))),
        !digest_matches(inner.data@, hash_declared@) ==> r is MismatchSha256,
{
    let hash_calculated = sha256_hex(inner.data.as_slice());
    let declared = hash_declared.to_owned();
    if hash_calculated == declared {
        UploadedData::Success(inner.size, hash_calculated)
    } else {
        UploadedData::MismatchSha256
    }
}

/// Consume a whole upload body: check the two parts' names and order, digest
/// the first part's bytes, and compare against the declared digest carried
/// by the second part.
///
/// Every protocol error is reported exactly where the body first deviates
/// from the expected shape; a well-formed body yields the digest comparison
/// outcome and never an error.
pub fn process_multipart_upload(parts: &Vec<UploadPart>) -> (r: Result<UploadedData, UploadError>)
    ensures
        parts@.len() == 0 ==> r matches Err(UploadError::FilePartMissing),
        parts@.len() > 0 && parts@[0].name@ != "file"@ ==> r matches Err(
            UploadError::FilePartMisplaced,
        ),
        parts@.len() == 1 && parts@[0].name@ == "file"@ ==> r matches Err(
            UploadError::FileHashPartMissing,
        ),
        parts@.len() >= 2 && parts@[0].name@ == "file"@ && parts@[1].name@ != "file-hash"@
            ==> r matches Err(UploadError::FileHashPartMisplaced),
        parts@.len() >= 2 && parts@[0].name@ == "file"@ && parts@[1].name@ == "file-hash"@
            && !vstd::utf8::valid_utf8(parts@[1].data@) ==> r matches Err(
            UploadError::FileHashNotText,
        ),
        parts@.len() >= 2 && parts@[0].name@ == "file"@ && parts@[1].name@ == "file-hash"@
            && vstd::utf8::valid_utf8(parts@[1].data@) ==> (r matches Ok(u) && (digest_matches(
            parts@[0].data@,
            vstd::utf8::decode_utf8(parts@[1].data@),
        ) ==> (u matches UploadedData::Success(size, hash) && size == parts@[0].data@.len()
            && hash@ == hex_of(sha256_of(parts@[0].data@)))) && (!digest_matches(
            parts@[0].data@,
            vstd::utf8::decode_utf8(parts@[1].data@),
        ) ==> u is MismatchSha256)),
{
    if parts.len() == 0 {
        return Err(UploadError::FilePartMissing);
    }
    if !(parts[0].name == String::from_str("file")) {
        return Err(UploadError::FilePartMisplaced);
    }
    if parts.len() == 1 {
        return Err(UploadError::FileHashPartMissing);
    }
    if !(parts[1].name == String::from_str("file-hash")) {
        return Err(UploadError::FileHashPartMisplaced);
    }
    let mut inner = DigestDataStreamInner::new();
    inner.hash_update(parts[0].data.as_slice());
    inner.size_inc(parts[0].data.len());
    match utf8_string(vstd::slice::slice_to_vec(parts[1].data.as_slice())) {
        None => Err(UploadError::FileHashNotText),
        Some(declared) => Ok(finish_upload(inner, declared.as_str())),
    }
}

} // verus!
