use consumet::envelope::{
    decrypt_envelope_b64, decrypt_url, encrypt_envelope_b64, encrypt_url,
};
use consumet::error::ExtractorError;

#[test]
fn envelope_round_trip_text() {
    let plaintext = "[{\"file\":\"https://example.org/master.m3u8\",\"type\":\"hls\"}]";
    let pass = b"a passphrase of some length";
    let salt = [1u8, 2, 3, 4, 5, 6, 7, 8];
    let ct = encrypt_url(plaintext, pass, &salt);
    let pt = decrypt_url(&ct, pass).expect("decrypt");
    assert_eq!(pt, plaintext);
}

#[test]
fn envelope_round_trip_bytes() {
    let plain: Vec<u8> = (0u8..=255).collect();
    let pass = b"key bytes";
    let salt = [9u8, 9, 9, 9, 9, 9, 9, 9];
    let ct = encrypt_envelope_b64(&plain, pass, &salt);
    let back = decrypt_envelope_b64(&ct, pass).expect("decrypt");
    assert_eq!(back, plain);
}

#[test]
fn wrong_passphrase_never_plaintext() {
    let plaintext = "{\"a\":1}";
    let pass = b"right";
    let salt = [0u8; 8];
    let ct = encrypt_url(plaintext, pass, &salt);
    match decrypt_url(&ct, b"wrong") {
        Ok(other) => assert_ne!(other, plaintext),
        Err(e) => assert!(e == ExtractorError::Crypto || e == ExtractorError::Format),
    }
}

#[test]
fn magic_rejection_is_format() {
    // 24 bytes that do not open with the magic
    let mut bytes = vec![b'N', b'o', b't', b'S', b'a', b'l', b't', b'!'];
    bytes.extend_from_slice(&[0u8; 16]);
    let text = openssl::base64::encode_block(&bytes);
    assert_eq!(decrypt_url(&text, b"whatever"), Err(ExtractorError::Format));
    assert_eq!(
        decrypt_envelope_b64(&text, b"whatever"),
        Err(ExtractorError::Format)
    );
}

#[test]
fn short_envelope_is_format() {
    let bytes = b"Salted__1234567"; // 15 bytes: one short of the minimum
    let text = openssl::base64::encode_block(bytes);
    assert_eq!(decrypt_url(&text, b"k"), Err(ExtractorError::Format));
}

#[test]
fn bad_base64_is_format() {
    assert_eq!(decrypt_url("@@@not base64@@@", b"k"), Err(ExtractorError::Format));
}

#[test]
fn zero_ciphertext_is_crypto_not_panic() {
    // magic + 8 zero salt bytes + 16 zero ciphertext bytes
    let mut bytes = b"Salted__".to_vec();
    bytes.extend_from_slice(&[0u8; 8]);
    bytes.extend_from_slice(&[0u8; 16]);
    let text = openssl::base64::encode_block(&bytes);
    assert_eq!(decrypt_url(&text, b"any passphrase"), Err(ExtractorError::Crypto));
}

#[test]
fn key_derivation_matches_the_legacy_scheme() {
    // Encrypt independently with OpenSSL's own EVP_BytesToKey derivation
    // (MD5, one round) and check that the library decrypts it.
    let plaintext = b"[{\"file\":\"https://example.org/x\"}]";
    let pass = b"shared secret";
    let salt = [7u8, 6, 5, 4, 3, 2, 1, 0];
    let cipher = openssl::symm::Cipher::aes_256_cbc();
    let key_iv = openssl::pkcs5::bytes_to_key(
        cipher,
        openssl::hash::MessageDigest::md5(),
        pass,
        Some(&salt),
        1,
    )
    .expect("derive");
    let ct = openssl::symm::encrypt(
        cipher,
        &key_iv.key,
        key_iv.iv.as_deref(),
        plaintext,
    )
    .expect("encrypt");
    let mut env = b"Salted__".to_vec();
    env.extend_from_slice(&salt);
    env.extend_from_slice(&ct);
    let text = openssl::base64::encode_block(&env);
    let back = decrypt_url(&text, pass).expect("decrypt");
    assert_eq!(back.as_bytes(), plaintext);
}

#[test]
fn non_utf8_plaintext_is_format_for_text_decrypt() {
    let plain = [0xffu8, 0xfe, 0x00, 0x01];
    let pass = b"p";
    let salt = [3u8; 8];
    let ct = encrypt_envelope_b64(&plain, pass, &salt);
    // the byte-level decrypt succeeds, the text-level one rejects
    assert_eq!(decrypt_envelope_b64(&ct, pass).expect("bytes"), plain.to_vec());
    assert_eq!(decrypt_url(&ct, pass), Err(ExtractorError::Format));
}
