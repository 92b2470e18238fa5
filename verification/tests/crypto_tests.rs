use origin_sdk::crypto::{Crypto, CryptoError};

#[test]
fn test_key() {
    let crypto = Crypto::new(0);

    assert_eq!(crypto.key().len(), 16);
    assert_eq!(
        crypto.key().as_slice(),
        [0, 1, 2, 3, 4, 5, 6, 7, 8, 9, 10, 11, 12, 13, 14, 15]
    );

    let crypto = Crypto::new(1337);

    assert_eq!(crypto.key().len(), 16);
    assert_eq!(
        crypto.key().as_slice(),
        [251, 135, 22, 197, 214, 181, 148, 115, 149, 93, 40, 78, 123, 141, 60, 108]
    );
}

#[test]
fn test_encrypt_decrypt() {
    let crypto = Crypto::new(1337);

    let plain_text = "hello world".to_string();
    let cipher_text = crypto
        .encrypt(plain_text.clone())
        .expect("Failed to encrypt");

    let decrypted_text = crypto.decrypt(cipher_text).expect("Failed to decrypt");

    assert_eq!(plain_text, decrypted_text);
}

#[test]
fn test_encrypt_golden_vector() {
    // AES-128-ECB with PKCS#7 padding under the identity key, checked
    // against an independent implementation.
    let crypto = Crypto::new(0);
    let cipher_text = crypto
        .encrypt("hello world".to_string())
        .expect("Failed to encrypt");
    assert_eq!(
        cipher_text.as_slice(),
        [
            0x92, 0x76, 0xfd, 0xf3, 0x84, 0xf3, 0x85, 0x18, 0xfa, 0x6c, 0x83, 0x10, 0xf1, 0x91,
            0x67, 0x8d
        ]
    );
}

#[test]
fn test_encrypt_empty_fails() {
    let crypto = Crypto::new(0);
    assert_eq!(crypto.encrypt(String::new()), Err(CryptoError::EmptyInput));
}

#[test]
fn test_decrypt_empty_fails() {
    let crypto = Crypto::new(0);
    assert!(matches!(
        crypto.decrypt(Vec::new()),
        Err(CryptoError::EmptyInput)
    ));
}

#[test]
fn test_decrypt_bad_padding_fails() {
    let crypto = Crypto::new(0);
    // Not a multiple of the block size: the padding cannot be valid.
    assert!(matches!(
        crypto.decrypt(vec![1, 2, 3]),
        Err(CryptoError::DecryptionFailed)
    ));
}

#[test]
fn test_round_trip_under_rotated_keys() {
    for seed in [0u32, 1, 7, 1337, 25655, u32::MAX] {
        let crypto = Crypto::new(seed);
        let plain = "some text with\nnewlines and unicode: \u{e9}\u{4e16}".to_string();
        let ct = crypto.encrypt(plain.clone()).expect("encrypt");
        assert_ne!(ct.as_slice(), plain.as_bytes());
        assert_eq!(crypto.decrypt(ct).expect("decrypt"), plain);
    }
}

#[test]
fn test_prepare_challenge_response() {
    let mut crypto = Crypto::new(0);
    let token = crypto
        .prepare_challenge_response("ABCD")
        .expect("challenge response");

    // The token is the hex form of the ciphertext of the challenge key under
    // the pre-handshake (identity) key.
    assert_eq!(token, "d7bb16f2fa9fda67b2e8bfaa336cba87");

    // The key silently rotates to the one derived from the token's first two
    // bytes: ('d' << 8) | '7' == 25655.
    assert_eq!(
        crypto.key().as_slice(),
        [48, 42, 207, 149, 211, 94, 27, 52, 170, 246, 58, 100, 181, 66, 74, 153]
    );
    assert_eq!(Crypto::new(25655).key(), crypto.key());
}

#[test]
fn test_prepare_challenge_response_empty_key_fails() {
    let mut crypto = Crypto::new(0);
    let before = crypto.key().clone();
    assert_eq!(
        crypto.prepare_challenge_response(""),
        Err(CryptoError::EmptyInput)
    );
    assert_eq!(crypto.key(), &before);
}
