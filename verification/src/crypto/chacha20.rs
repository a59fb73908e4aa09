//! ChaCha20 decryption.
use vstd::prelude::*;
use cbc::cipher::{KeyIvInit, StreamCipher};
use crate::crypto::CryptoError;

verus! {

// ---------------------------------------------------------------------------
// ChaCha20
// ---------------------------------------------------------------------------

/// The first `len` bytes of the ChaCha20 (IETF, 96-bit nonce) keystream for
/// `key` and `nonce`, starting at block 0.
pub uninterp spec fn chacha20_keystream(key: Seq<u8>, nonce: Seq<u8>, len: nat) -> Seq<u8>;

/// The most bytes one ChaCha20 keystream covers: 2^32 - 1 blocks of 64 bytes.
pub open spec fn chacha20_max_len() -> nat {
    274877906880
}

/// `chacha20::ChaCha20::new_from_slices(key, nonce)` and then
/// `apply_keystream` on a copy of `data`. The constructor accepts exactly a
/// 32-byte key and a 12-byte nonce; `apply_keystream` XORs the keystream
/// into the buffer, and panics only past the keystream's end, which
/// `requires` rules out.
#[verifier::external_body]
fn chacha20_apply(key: &[u8], nonce: &[u8], data: &[u8]) -> (r: Result<
    Vec<u8>,
    ::chacha20::cipher::InvalidLength,
>)
    requires
        data@.len() <= chacha20_max_len(),
    ensures
        r is Ok <==> (key@.len() == 32 && nonce@.len() == 12),
        r matches Ok(v) ==> v@.len() == data@.len() && forall|i: int|
            0 <= i < data@.len() ==> #[trigger] v@[i] == data@[i] ^ chacha20_keystream(
                key@,
                nonce@,
                data@.len(),
            )[i],
{
    let mut cipher = ::chacha20::ChaCha20::new_from_slices(key, nonce)?;
    let mut buffer = data.to_vec();
    cipher.apply_keystream(&mut buffer);
    Ok(buffer)
}

/// `data` XORed with the ChaCha20 keystream of `key` and `nonce`.
pub open spec fn chacha20_xor(key: Seq<u8>, nonce: Seq<u8>, data: Seq<u8>) -> Seq<u8> {
    Seq::new(data.len(), |i: int| data[i] ^ chacha20_keystream(key, nonce, data.len())[i])
}

/// Decrypts `data` with ChaCha20 (a 32-byte key and a 12-byte nonce).
pub fn decrypt_chacha20(data: &[u8], key: &[u8], nonce: &[u8]) -> (r: Result<Vec<u8>, CryptoError>)
    requires
        data@.len() <= chacha20_max_len(),
    ensures
        r is Ok <==> (key@.len() == 32 && nonce@.len() == 12),
        r matches Ok(v) ==> v@ == chacha20_xor(key@, nonce@, data@),
        r matches Err(e) ==> e == CryptoError::InvalidLength,
{
    match chacha20_apply(key, nonce, data) {
        Ok(v) => {
            assert(v@ =~= chacha20_xor(key@, nonce@, data@));
            Ok(v)
        },
        Err(_) => Err(CryptoError::InvalidLength),
    }
}

/// ChaCha20 is its own inverse: decrypting what it decrypted with the same
/// key and nonce gives the input back.
pub proof fn lemma_chacha20_involution(key: Seq<u8>, nonce: Seq<u8>, data: Seq<u8>)
    ensures
        chacha20_xor(key, nonce, chacha20_xor(key, nonce, data)) == data,
{
    let once = chacha20_xor(key, nonce, data);
    let twice = chacha20_xor(key, nonce, once);
    assert forall|i: int| 0 <= i < data.len() implies twice[i] == data[i] by {
        let k = chacha20_keystream(key, nonce, data.len())[i];
        let d = data[i];
        assert((d ^ k) ^ k == d) by (bit_vector);
    }
    assert(twice =~= data);
}

} // verus!
