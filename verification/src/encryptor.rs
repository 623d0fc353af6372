//! The crypto envelope: AES-256 in CBC mode with PKCS padding and a fixed
//! initialization vector chosen once from an operator-supplied secret.
//!
//! The block cipher comes from the `crypto` crate and is named, not
//! restated: `aes_enc` stands for what padded encryption returns and
//! `aes_dec_blocks` for what raw block decryption returns, and the one fact
//! stated beside them is that block decryption recovers the padded
//! plaintext. The PKCS padding itself is this crate's own verified logic:
//! `decrypt` strips it after the raw call, so a ciphertext with mangled
//! padding is a clean error here, whatever bytes the cipher hands back.

use vstd::prelude::*;

use crypto::buffer::{BufferResult, ReadBuffer, WriteBuffer};

use crate::failures::CustomError;

verus! {

/// What AES-256-CBC encryption with PKCS padding returns for an
/// initialization vector, key and plaintext: a function of those bytes
/// alone.
pub uninterp spec fn aes_enc(iv: Seq<u8>, key: Seq<u8>, data: Seq<u8>) -> Seq<u8>;

/// What raw AES-256-CBC block decryption (no padding handling) returns for
/// an initialization vector, key and whole-block ciphertext: a function of
/// those bytes alone.
pub uninterp spec fn aes_dec_blocks(iv: Seq<u8>, key: Seq<u8>, data: Seq<u8>) -> Seq<u8>;

/// The PKCS form the cipher encrypts: the plaintext extended to a whole
/// number of blocks by 1 to 16 copies of the count of added bytes. An empty
/// plaintext stays empty: the cipher emits no blocks at all for it.
pub open spec fn pkcs_pad(bytes: Seq<u8>) -> Seq<u8> {
    if bytes.len() == 0 {
        bytes
    } else {
        let n = 16 - bytes.len() % 16;
        bytes + Seq::new(n as nat, |i: int| n as u8)
    }
}

/// PKCS unpadding as the envelope accepts it: the last byte names how many
/// trailing copies of itself to strip (1 to 16, within the length); an
/// empty input stays empty, matching what `pkcs_pad` emits; anything else
/// is rejected.
pub open spec fn pkcs_unpad(bytes: Seq<u8>) -> Option<Seq<u8>> {
    if bytes.len() == 0 {
        Some(bytes)
    } else {
        let n = bytes.last() as int;
        if 1 <= n <= 16 && n <= bytes.len() && (forall|i: int|
            bytes.len() - n <= i < bytes.len() ==> bytes[i] == bytes.last()) {
            Some(bytes.take(bytes.len() - n))
        } else {
            None
        }
    }
}

/// What decrypting an envelope yields: raw block decryption where the
/// length allows it, then PKCS unpadding; every failure is "no plaintext".
pub open spec fn aes_dec(iv: Seq<u8>, key: Seq<u8>, data: Seq<u8>) -> Option<Seq<u8>> {
    if data.len() % 16 == 0 {
        pkcs_unpad(aes_dec_blocks(iv, key, data))
    } else {
        None
    }
}

/// The padded form's length: one block more than the plaintext's whole
/// blocks, and nothing for an empty plaintext; always a whole number of
/// blocks.
pub proof fn lemma_pkcs_pad_len(bytes: Seq<u8>)
    ensures
        bytes.len() == 0 ==> pkcs_pad(bytes).len() == 0,
        bytes.len() > 0 ==> pkcs_pad(bytes).len() == (bytes.len() / 16 + 1) * 16,
        pkcs_pad(bytes).len() % 16 == 0,
{
}

/// Unpadding inverts padding: `pkcs_unpad` recovers exactly the plaintext
/// that `pkcs_pad` extended.
pub proof fn lemma_pkcs_unpad_pad(bytes: Seq<u8>)
    ensures
        pkcs_unpad(pkcs_pad(bytes)) == Some(bytes),
{
    if bytes.len() > 0 {
        let padded = pkcs_pad(bytes);
        let n = 16 - bytes.len() % 16;
        assert(padded.last() == n as u8);
        assert(forall|i: int| padded.len() - n <= i < padded.len() ==> padded[i] == padded.last());
        assert(padded.take(padded.len() - n) =~= bytes);
    }
}

/// A ciphertext that block-decrypts to the padded form decrypts, as an
/// envelope, to the plaintext itself.
pub proof fn lemma_envelope_round_trip(iv: Seq<u8>, key: Seq<u8>, data: Seq<u8>, ct: Seq<u8>)
    requires
        aes_dec_blocks(iv, key, ct) == pkcs_pad(data),
        ct.len() == pkcs_pad(data).len(),
    ensures
        aes_dec(iv, key, ct) == Some(data),
{
    lemma_pkcs_pad_len(data);
    lemma_pkcs_unpad_pad(data);
}

/// Strip PKCS padding, exactly as `pkcs_unpad` says: the only accepted
/// inputs are the empty string and those whose last byte counts 1 to 16
/// trailing copies of itself.
pub fn strip_pkcs_padding(bytes: &[u8]) -> (r: Option<Vec<u8>>)
    ensures
        r matches Some(v) ==> pkcs_unpad(bytes@) == Some(v@),
        r is None ==> pkcs_unpad(bytes@) is None,
{
    if bytes.len() == 0 {
        return Some(Vec::new());
    }
    let n = bytes[bytes.len() - 1];
    let count = n as usize;
    if count == 0 || count > 16 || count > bytes.len() {
        return None;
    }
    let mut i: usize = bytes.len() - count;
    while i < bytes.len()
        invariant
            bytes@.len() - count <= i <= bytes@.len(),
            count == n as int,
            n == bytes@.last(),
            count <= bytes@.len(),
            forall|j: int| bytes@.len() - count <= j < i ==> bytes@[j] == bytes@.last(),
        decreases bytes@.len() - i,
    {
        if bytes[i] != n {
            return None;
        }
        i = i + 1;
    }
    let mut v = vstd::slice::slice_to_vec(bytes);
    v.truncate(bytes.len() - count);
    Some(v)
}

/// Symmetric encryption and decryption of short secrets under a fixed
/// initialization vector.
pub struct Encryptor {
    /// The fixed initialization vector, 16 bytes exactly.
    pub iv: Vec<u8>,
}

impl Encryptor {
    /// A well-formed envelope holds a 16-byte initialization vector, the
    /// cipher's block size.
    pub open spec fn wf(&self) -> bool {
        self.iv@.len() == 16
    }

    /// An envelope keyed by the UTF-8 bytes of an operator-supplied secret,
    /// which must be 16 bytes exactly.
    pub fn new(iv: String) -> (r: Encryptor)
        requires
            vstd::utf8::encode_utf8(iv@).len() == 16,
        ensures
            r.iv@ == vstd::utf8::encode_utf8(iv@),
            r.wf(),
    {
        Encryptor { iv: vstd::slice::slice_to_vec(iv.as_str().as_bytes()) }
    }

    /// Relies on `crypto::aes::cbc_encryptor` with `KeySize256` and
    /// `PkcsPadding`: encryption of any plaintext under a 32-byte key and a
    /// 16-byte initialization vector succeeds, its result is a function of
    /// those bytes alone and as long as the padded plaintext, and raw block
    /// decryption under the same key recovers that padded plaintext.
    #[verifier::external_body]
    pub fn encrypt(&self, data: &[u8], key: &[u8]) -> (r: Result<Vec<u8>, CustomError>)
        requires
            key@.len() == 32,
            self.wf(),
        ensures
            r is Ok,
            r matches Ok(v) ==> v@ == aes_enc(self.iv@, key@, data@),
            r matches Ok(v) ==> v@.len() == pkcs_pad(data@).len(),
            r matches Ok(v) ==> aes_dec_blocks(self.iv@, key@, v@) == pkcs_pad(data@),
    {
        let mut enc = crypto::aes::cbc_encryptor(
            crypto::aes::KeySize::KeySize256, key, &self.iv, crypto::blockmodes::PkcsPadding);
        let mut out = Vec::<u8>::new();
        let mut rb = crypto::buffer::RefReadBuffer::new(data);
        let mut buf = [0u8; 4096];
        let mut wb = crypto::buffer::RefWriteBuffer::new(&mut buf);
        loop {
            let res = enc.encrypt(&mut rb, &mut wb, true)
                .map_err(|_| CustomError::new("cipher failure"))?;
            out.extend(wb.take_read_buffer().take_remaining().iter().cloned());
            if let BufferResult::BufferUnderflow = res { break; }
        }
        Ok(out)
    }

    /// Relies on `crypto::aes::cbc_decryptor` with `KeySize256` and
    /// `NoPadding`: raw block decryption under a 32-byte key and a 16-byte
    /// initialization vector is a function of those bytes alone, succeeds
    /// exactly on whole-block input, preserves the length, and never
    /// inspects the decrypted bytes (so no content can make it misbehave).
    #[verifier::external_body]
    fn decrypt_raw(&self, encrypted_data: &[u8], key: &[u8]) -> (r: Result<Vec<u8>, CustomError>)
        requires
            key@.len() == 32,
            self.wf(),
        ensures
            r matches Ok(v) ==> v@ == aes_dec_blocks(self.iv@, key@, encrypted_data@)
                && v@.len() == encrypted_data@.len() && encrypted_data@.len() % 16 == 0,
            r is Err ==> encrypted_data@.len() % 16 != 0,
    {
        let mut dec = crypto::aes::cbc_decryptor(
            crypto::aes::KeySize::KeySize256, key, &self.iv, crypto::blockmodes::NoPadding);
        let mut out = Vec::<u8>::new();
        let mut rb = crypto::buffer::RefReadBuffer::new(encrypted_data);
        let mut buf = [0u8; 4096];
        let mut wb = crypto::buffer::RefWriteBuffer::new(&mut buf);
        loop {
            let res = dec.decrypt(&mut rb, &mut wb, true)
                .map_err(|_| CustomError::new("cipher failure"))?;
            out.extend(wb.take_read_buffer().take_remaining().iter().cloned());
            if let BufferResult::BufferUnderflow = res { break; }
        }
        Ok(out)
    }

    /// Decrypt an envelope: raw block decryption, then verified PKCS
    /// unpadding. A ciphertext of the wrong length or with mangled padding
    /// is an error, never a panic, whatever its bytes decrypt to.
    pub fn decrypt(&self, encrypted_data: &[u8], key: &[u8]) -> (r: Result<Vec<u8>, CustomError>)
        requires
            key@.len() == 32,
            self.wf(),
        ensures
            r matches Ok(v) ==> aes_dec(self.iv@, key@, encrypted_data@) == Some(v@),
            r is Err ==> aes_dec(self.iv@, key@, encrypted_data@) is None,
    {
        match self.decrypt_raw(encrypted_data, key) {
            Err(e) => Err(e),
            Ok(padded) => match strip_pkcs_padding(padded.as_slice()) {
                None => Err(CustomError::new("invalid padding")),
                Some(v) => Ok(v),
            },
        }
    }
}

} // verus!
