//! AES-128 decryption (CBC and ECB) with PKCS#7 padding removed.
use vstd::prelude::*;
use cbc::cipher::block_padding::NoPadding;
use cbc::cipher::{BlockDecryptMut, KeyInit, KeyIvInit};
use crate::crypto::CryptoError;

verus! {

// ---------------------------------------------------------------------------
// AES-128
// ---------------------------------------------------------------------------

/// The AES-128 block size.
pub open spec fn block_len() -> nat {
    16
}

/// AES-128-CBC decryption (no unpadding) of whole blocks.
pub uninterp spec fn aes128_cbc_plain(key: Seq<u8>, iv: Seq<u8>, data: Seq<u8>) -> Seq<u8>;

/// AES-128-ECB decryption (no unpadding) of whole blocks.
pub uninterp spec fn aes128_ecb_plain(key: Seq<u8>, data: Seq<u8>) -> Seq<u8>;

/// `cbc::Decryptor::<aes::Aes128>::new_from_slices(key, iv)`, then
/// `decrypt_padded_vec_mut::<NoPadding>` on `data`, which decrypts every
/// block and keeps the output's length. The constructor accepts exactly a
/// 16-byte key and a 16-byte IV; whole blocks (`requires`) never fail to
/// unpad with `NoPadding`.
#[verifier::external_body]
fn aes128_cbc_decrypt_blocks(key: &[u8], iv: &[u8], data: &[u8]) -> (r: Result<
    Vec<u8>,
    cbc::cipher::InvalidLength,
>)
    requires
        data@.len() % block_len() == 0,
    ensures
        r is Ok <==> (key@.len() == 16 && iv@.len() == 16),
        r matches Ok(v) ==> v@ == aes128_cbc_plain(key@, iv@, data@) && v@.len() == data@.len(),
{
    let decryptor = cbc::Decryptor::<::aes::Aes128>::new_from_slices(key, iv)?;
    Ok(decryptor.decrypt_padded_vec_mut::<NoPadding>(data).unwrap())
}

/// `ecb::Decryptor::<aes::Aes128>::new_from_slice(key)`, then
/// `decrypt_padded_vec_mut::<NoPadding>` on `data`, which decrypts every
/// block and keeps the output's length. The constructor accepts exactly a
/// 16-byte key; whole blocks (`requires`) never fail to unpad with
/// `NoPadding`.
#[verifier::external_body]
fn aes128_ecb_decrypt_blocks(key: &[u8], data: &[u8]) -> (r: Result<
    Vec<u8>,
    cbc::cipher::InvalidLength,
>)
    requires
        data@.len() % block_len() == 0,
    ensures
        r is Ok <==> key@.len() == 16,
        r matches Ok(v) ==> v@ == aes128_ecb_plain(key@, data@) && v@.len() == data@.len(),
{
    let decryptor = ecb::Decryptor::<::aes::Aes128>::new_from_slice(key)?;
    Ok(decryptor.decrypt_padded_vec_mut::<NoPadding>(data).unwrap())
}

/// The plaintext without its PKCS#7 padding: the last byte, where it is
/// between 1 and 16, counts the bytes to drop (the padding bytes themselves
/// are not checked).
pub open spec fn strip_padding(p: Seq<u8>) -> Seq<u8> {
    if p.len() > 0 && 0 < p.last() && p.last() <= 16 && p.last() <= p.len() {
        p.take(p.len() - p.last())
    } else {
        p
    }
}

/// Removes PKCS#7 padding in place.
pub fn remove_padding(buffer: &mut Vec<u8>)
    ensures
        final(buffer)@ == strip_padding(old(buffer)@),
{
    let n = buffer.len();
    if n > 0 {
        let padding = buffer[n - 1] as usize;
        if padding > 0 && padding <= 16 && padding <= n {
            buffer.truncate(n - padding);
        }
    }
}

/// Decrypts AES-128-CBC `data` (whole blocks) and removes its padding.
pub fn decrypt_aes_128_cbc(data: &[u8], key: &[u8], iv: &[u8]) -> (r: Result<Vec<u8>, CryptoError>)
    requires
        data@.len() % block_len() == 0,
    ensures
        r is Ok <==> (key@.len() == 16 && iv@.len() == 16),
        r matches Ok(v) ==> v@ == strip_padding(aes128_cbc_plain(key@, iv@, data@)),
        r matches Ok(v) ==> aes128_cbc_plain(key@, iv@, data@).len() == data@.len(),
        r matches Ok(v) ==> v@.len() <= data@.len() && data@.len() - v@.len() <= block_len(),
        r matches Err(e) ==> e == CryptoError::InvalidLength,
{
    match aes128_cbc_decrypt_blocks(key, iv, data) {
        Ok(buffer) => {
            let mut buffer = buffer;
            proof {
                lemma_strip_padding_prefix(buffer@);
            }
            remove_padding(&mut buffer);
            Ok(buffer)
        },
        Err(_) => Err(CryptoError::InvalidLength),
    }
}

/// Decrypts AES-128-ECB `data` (whole blocks) and removes its padding.
pub fn decrypt_aes_128_ecb(data: &[u8], key: &[u8]) -> (r: Result<Vec<u8>, CryptoError>)
    requires
        data@.len() % block_len() == 0,
    ensures
        r is Ok <==> key@.len() == 16,
        r matches Ok(v) ==> v@ == strip_padding(aes128_ecb_plain(key@, data@)),
        r matches Ok(v) ==> aes128_ecb_plain(key@, data@).len() == data@.len(),
        r matches Ok(v) ==> v@.len() <= data@.len() && data@.len() - v@.len() <= block_len(),
        r matches Err(e) ==> e == CryptoError::InvalidLength,
{
    match aes128_ecb_decrypt_blocks(key, data) {
        Ok(buffer) => {
            let mut buffer = buffer;
            proof {
                lemma_strip_padding_prefix(buffer@);
            }
            remove_padding(&mut buffer);
            Ok(buffer)
        },
        Err(_) => Err(CryptoError::InvalidLength),
    }
}

/// Removing padding only ever drops between 1 and 16 bytes from the end:
/// what stays is a prefix of the plaintext.
pub proof fn lemma_strip_padding_prefix(p: Seq<u8>)
    ensures
        strip_padding(p).len() <= p.len(),
        p.len() - strip_padding(p).len() <= 16,
        strip_padding(p) == p.take(strip_padding(p).len() as int),
{
    if !(p.len() > 0 && 0 < p.last() && p.last() <= 16 && p.last() <= p.len()) {
        assert(p.take(p.len() as int) =~= p);
    }
}

/// Padding that a sender added (k bytes, each equal to k, 1 <= k <= 16) is
/// removed exactly.
pub proof fn lemma_strip_padding_exact(msg: Seq<u8>, k: u8)
    requires
        1 <= k <= 16,
    ensures
        strip_padding(msg + Seq::new(k as nat, |i: int| k)) == msg,
{
    let p = msg + Seq::new(k as nat, |i: int| k);
    assert(p.last() == k);
    assert(p.take(p.len() - k) =~= msg);
}

} // verus!
