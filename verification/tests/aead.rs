use pulse::aead::{decrypt, encrypt, generate_key, AeadError, NONCE_LEN, TAG_LEN};

#[test]
fn encrypt_decrypt_round_trip() {
    let key = generate_key();
    let plaintext = b"anonymous response data";
    let encrypted = encrypt(&key, plaintext).unwrap();
    let decrypted = decrypt(&key, &encrypted).unwrap();
    assert_eq!(decrypted, plaintext);
}

#[test]
fn wrong_key_fails_decryption() {
    let key1 = generate_key();
    let key2 = generate_key();
    let encrypted = encrypt(&key1, b"secret").unwrap();
    let result = decrypt(&key2, &encrypted);
    assert!(result.is_err());
}

#[test]
fn tampered_ciphertext_fails() {
    let key = generate_key();
    let mut encrypted = encrypt(&key, b"secret").unwrap();
    // Flip a byte in the ciphertext (after the 12-byte nonce)
    if let Some(byte) = encrypted.get_mut(15) {
        *byte ^= 0xFF;
    }
    let result = decrypt(&key, &encrypted);
    assert!(result.is_err());
}

#[test]
fn different_encryptions_produce_different_ciphertext() {
    let key = generate_key();
    let plaintext = b"same message";
    let enc1 = encrypt(&key, plaintext).unwrap();
    let enc2 = encrypt(&key, plaintext).unwrap();
    // Different random nonces → different ciphertext
    assert_ne!(enc1, enc2);
    // But both decrypt to the same plaintext
    assert_eq!(decrypt(&key, &enc1).unwrap(), plaintext);
    assert_eq!(decrypt(&key, &enc2).unwrap(), plaintext);
}

/// The output is nonce, ciphertext and tag: 12 + len + 16 bytes.
#[test]
fn sealed_box_length() {
    let key = generate_key();
    for len in [0usize, 1, 15, 16, 17, 100] {
        let plaintext = vec![0x5Au8; len];
        let encrypted = encrypt(&key, &plaintext).unwrap();
        assert_eq!(encrypted.len(), NONCE_LEN + len + TAG_LEN);
        assert_eq!(decrypt(&key, &encrypted).unwrap(), plaintext);
    }
}

/// An input shorter than a nonce is a decryption error, not a panic.
#[test]
fn short_input_fails_decryption() {
    let key = generate_key();
    assert_eq!(decrypt(&key, &[]), Err(AeadError::Decryption));
    assert_eq!(decrypt(&key, &[0u8; 11]), Err(AeadError::Decryption));
    assert_eq!(decrypt(&key, &[0u8; 12]), Err(AeadError::Decryption));
    assert_eq!(decrypt(&key, &[0u8; 28]), Err(AeadError::Decryption));
}

/// Fixed key and fixed bytes: the decryption of a sealed box under an
/// all-zero key round-trips an empty message too.
#[test]
fn empty_message_round_trip() {
    let key = [0u8; 32];
    let encrypted = encrypt(&key, b"").unwrap();
    assert_eq!(encrypted.len(), 28);
    assert_eq!(decrypt(&key, &encrypted).unwrap(), Vec::<u8>::new());
}
