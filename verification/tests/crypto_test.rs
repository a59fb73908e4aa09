use cbc::cipher::block_padding::Pkcs7;
use cbc::cipher::{BlockEncryptMut, KeyIvInit};
use n_m3u8_re_rust::crypto::aes::decrypt_aes_128_cbc;
use n_m3u8_re_rust::crypto::aes::decrypt_aes_128_ecb;
use n_m3u8_re_rust::crypto::aes::remove_padding;
use n_m3u8_re_rust::crypto::chacha20::decrypt_chacha20;
use n_m3u8_re_rust::crypto::CryptoError;

#[test]
fn test_aes_128_cbc_decrypt() {
    let data = vec![0x00; 16];
    let key = vec![0x00; 16];
    let iv = vec![0x00; 16];

    match decrypt_aes_128_cbc(&data, &key, &iv) {
        Ok(_decrypted) => {}
        Err(e) => {
            println!("AES-128 CBC decryption failed: {:?}", e);
        }
    }
}

#[test]
fn test_aes_128_ecb_decrypt() {
    let data = vec![0x00; 16];
    let key = vec![0x00; 16];

    match decrypt_aes_128_ecb(&data, &key) {
        Ok(_decrypted) => {}
        Err(e) => {
            println!("AES-128 ECB decryption failed: {:?}", e);
        }
    }
}

#[test]
fn test_chacha20_decrypt() {
    let data = vec![0x00; 32];
    let key = vec![0x00; 32];
    let nonce = vec![0x00; 8];

    match decrypt_chacha20(&data, &key, &nonce) {
        Ok(_decrypted) => {}
        Err(e) => {
            println!("ChaCha20 decryption failed: {:?}", e);
        }
    }
}

fn hex(s: &str) -> Vec<u8> {
    (0..s.len() / 2).map(|i| u8::from_str_radix(&s[2 * i..2 * i + 2], 16).unwrap()).collect()
}

#[test]
fn aes_ecb_known_answer() {
    // FIPS-197 appendix C.1; the last plaintext byte (0xff) is no padding.
    let key = hex("000102030405060708090a0b0c0d0e0f");
    let data = hex("69c4e0d86a7b0430d8cdb78070b4c55a");
    let plain = decrypt_aes_128_ecb(&data, &key).unwrap();
    assert_eq!(plain, hex("00112233445566778899aabbccddeeff"));
}

#[test]
fn aes_cbc_known_answer_with_zero_iv() {
    let key = hex("000102030405060708090a0b0c0d0e0f");
    let iv = vec![0u8; 16];
    let data = hex("69c4e0d86a7b0430d8cdb78070b4c55a");
    let plain = decrypt_aes_128_cbc(&data, &key, &iv).unwrap();
    assert_eq!(plain, hex("00112233445566778899aabbccddeeff"));
}

#[test]
fn aes_cbc_removes_pkcs7_padding() {
    let key = [7u8; 16];
    let iv = [9u8; 16];
    let enc = cbc::Encryptor::<aes::Aes128>::new_from_slices(&key, &iv)
        .unwrap()
        .encrypt_padded_vec_mut::<Pkcs7>(b"hello segment");
    assert_eq!(enc.len(), 16);
    let plain = decrypt_aes_128_cbc(&enc, &key, &iv).unwrap();
    assert_eq!(plain, b"hello segment".to_vec());
}

#[test]
fn aes_cbc_full_padding_block_removed() {
    let key = [1u8; 16];
    let iv = [2u8; 16];
    let msg = [5u8; 32];
    let enc = cbc::Encryptor::<aes::Aes128>::new_from_slices(&key, &iv)
        .unwrap()
        .encrypt_padded_vec_mut::<Pkcs7>(&msg);
    assert_eq!(enc.len(), 48);
    assert_eq!(decrypt_aes_128_cbc(&enc, &key, &iv).unwrap(), msg.to_vec());
}

#[test]
fn aes_wrong_lengths_are_refused() {
    let data = vec![0u8; 16];
    assert_eq!(decrypt_aes_128_cbc(&data, &[0u8; 15], &[0u8; 16]), Err(CryptoError::InvalidLength));
    assert_eq!(decrypt_aes_128_cbc(&data, &[0u8; 16], &[0u8; 8]), Err(CryptoError::InvalidLength));
    assert_eq!(decrypt_aes_128_ecb(&data, &[0u8; 32]), Err(CryptoError::InvalidLength));
}

#[test]
fn aes_empty_data_decrypts_to_nothing() {
    assert_eq!(decrypt_aes_128_ecb(&[], &[0u8; 16]).unwrap(), Vec::<u8>::new());
}

#[test]
fn chacha20_short_nonce_is_refused() {
    assert_eq!(decrypt_chacha20(&[0u8; 32], &[0u8; 32], &[0u8; 8]), Err(CryptoError::InvalidLength));
    assert_eq!(decrypt_chacha20(&[0u8; 32], &[0u8; 16], &[0u8; 12]), Err(CryptoError::InvalidLength));
}

#[test]
fn chacha20_is_its_own_inverse() {
    let key: Vec<u8> = (0u8..32).collect();
    let nonce = hex("000000090000004a00000000");
    let data = b"Ladies and Gentlemen of the class of '99".to_vec();
    let once = decrypt_chacha20(&data, &key, &nonce).unwrap();
    assert_eq!(once.len(), data.len());
    assert_ne!(once, data);
    let twice = decrypt_chacha20(&once, &key, &nonce).unwrap();
    assert_eq!(twice, data);
}

#[test]
fn chacha20_keystream_known_answer() {
    // RFC 8439 section 2.4.2 encrypts with counter 1; block 0 here is the
    // keystream of counter 0, and block 1 must match the RFC's first block.
    let key: Vec<u8> = (0u8..32).collect();
    let nonce = hex("000000000000004a00000000");
    let plain = b"Ladies and Gentlemen of the class of '99: If I could offer you only one tip for the future, sunscreen would be it.";
    let mut data = vec![0u8; 64];
    data.extend_from_slice(plain);
    let out = decrypt_chacha20(&data, &key, &nonce).unwrap();
    let expected = hex("6e2e359a2568f98041ba0728dd0d6981e97e7aec1d4360c20a27afccfd9fae0bf91b65c5524733ab8f593dabcd62b3571639d624e65152ab8f530c359f0861d807ca0dbf500d6a6156a38e088a22b65e52bc514d16ccf806818ce91ab77937365af90bbf74a35be6b40b8eedf2785e42874d");
    assert_eq!(&out[64..], &expected[..]);
}

#[test]
fn padding_rules() {
    let mut v = vec![1, 2, 3, 3, 3];
    remove_padding(&mut v);
    assert_eq!(v, vec![1, 2]);
    let mut v = vec![1, 2, 0];
    remove_padding(&mut v);
    assert_eq!(v, vec![1, 2, 0]);
    let mut v = vec![1, 17];
    remove_padding(&mut v);
    assert_eq!(v, vec![1, 17]);
    let mut v: Vec<u8> = vec![];
    remove_padding(&mut v);
    assert!(v.is_empty());
}

#[test]
fn aes_result_is_at_most_one_block_shorter() {
    for n in [16usize, 32, 64] {
        let data = vec![0u8; n];
        let c = decrypt_aes_128_cbc(&data, &[0u8; 16], &[0u8; 16]).unwrap();
        assert!(c.len() <= n && n - c.len() <= 16);
        let e = decrypt_aes_128_ecb(&data, &[0u8; 16]).unwrap();
        assert!(e.len() <= n && n - e.len() <= 16);
    }
}
