use autotext::crypto::{decrypt, derive_key, encrypt, CryptoError, CBC_IV_BASE64};

#[test]
fn encrypt_hello_world_with_empty_password() {
    let ct = encrypt("hello world".to_string(), "".to_string());
    assert_eq!(ct, "ic9D144OsTnpjENTk7iyEQ==");
    assert_eq!(ct.len(), 24);
    assert!(ct.ends_with("==") && !ct[..22].contains('='));
}

#[test]
fn encrypt_with_password() {
    let ct = encrypt("Dear Sir or Madam,".to_string(), "secret".to_string());
    assert_eq!(ct, "ijMO784+HnM7dDLAfMYU21HtaggYeMkPdLnrbfjZ83E=");
}

#[test]
fn encrypt_full_block_gets_a_padding_block() {
    let ct = encrypt("0123456789abcdef".to_string(), "".to_string());
    assert_eq!(ct, "dYDwoBBLdpa8lqHaECvXCAJ/nll8NDh7PHL85I/MeKs=");
}

#[test]
fn encrypt_empty_text_is_empty() {
    assert_eq!(encrypt(String::new(), "pw".to_string()), "");
    assert_eq!(decrypt(String::new(), "pw".to_string()).unwrap(), "");
}

#[test]
fn decrypt_hello_world() {
    let text = decrypt("ic9D144OsTnpjENTk7iyEQ==".to_string(), "".to_string()).unwrap();
    assert_eq!(text, "hello world");
}

#[test]
fn roundtrip_sample_of_the_program() {
    let t = "hello world".to_string();
    let pass = "".to_string();
    let ct = encrypt(t.clone(), pass.clone());
    assert_eq!(decrypt(ct, pass).unwrap(), t);
}

#[test]
fn roundtrip_unicode_text() {
    let t = "Grüße, 日本語 — ünïcödé ✓\nsecond line".to_string();
    let ct = encrypt(t.clone(), "pässwörd".to_string());
    assert_eq!(decrypt(ct, "pässwörd".to_string()).unwrap(), t);
}

#[test]
fn roundtrip_text_longer_than_one_stream_write() {
    let t = "abcdefghij".repeat(1000);
    let ct = encrypt(t.clone(), "long".to_string());
    // 10000 bytes pad to 10000 - 10000 % 16 + 16 = 10016 bytes, 13356 Base64 symbols.
    assert_eq!(ct.len(), 13356);
    assert_eq!(decrypt(ct, "long".to_string()).unwrap(), t);
}

#[test]
fn decrypt_with_wrong_password_reads_what_was_decrypted() {
    // One block: the padding check fails and nothing was decrypted before it.
    let r = decrypt("ic9D144OsTnpjENTk7iyEQ==".to_string(), "wrong".to_string());
    assert_eq!(r, Ok(String::new()));
    // Two blocks: the first block, decrypted under the wrong key, is read lossily.
    let r = decrypt("ijMO784+HnM7dDLAfMYU21HtaggYeMkPdLnrbfjZ83E=".to_string(), "x".to_string());
    let first_block = [
        0x77u8, 0x22, 0x32, 0x9d, 0x51, 0x53, 0x2c, 0x81, 0x5f, 0x77, 0x4a, 0xa6, 0xdb, 0x9b, 0x63, 0x8f,
    ];
    assert_eq!(r, Ok(String::from_utf8_lossy(&first_block).into_owned()));
}

#[test]
fn decrypt_with_wrong_password_whose_padding_happens_to_pass() {
    let r = decrypt("ijMO784+HnM7dDLAfMYU21HtaggYeMkPdLnrbfjZ83E=".to_string(), "wrong".to_string());
    let plain = [
        0x17u8, 0x78, 0xb4, 0x1f, 0x05, 0x9e, 0x99, 0x51, 0x5c, 0x5f, 0xb2, 0xa5, 0x5a, 0xcb, 0xaf, 0xbe,
        0x74, 0xf2, 0xaf, 0x01, 0x62, 0xc0, 0xbb, 0x14, 0xc7, 0xe2, 0xe6, 0xf5, 0x71, 0x80, 0x4d,
    ];
    assert_eq!(r, Ok(String::from_utf8_lossy(&plain).into_owned()));
}

#[test]
fn decrypt_of_truncated_ciphertext_reads_its_whole_blocks() {
    // 20 bytes: the first block decrypts, the last 4 bytes are no whole block.
    let r = decrypt("ijMO784+HnM7dDLAfMYU21Htagg=".to_string(), "secret".to_string());
    assert_eq!(r, Ok("Dear Sir or Mada".to_string()));
}

#[test]
fn decrypt_rejects_invalid_base64() {
    assert_eq!(decrypt("not base64!".to_string(), "".to_string()), Err(CryptoError::InvalidBase64));
    assert_eq!(decrypt("ic9D144OsTnpjENTk7iyEQ=".to_string(), "".to_string()), Err(CryptoError::InvalidBase64));
    // Non-zero trailing bits are not canonical.
    assert_eq!(decrypt("ic9D144OsTnpjENTk7iyER==".to_string(), "".to_string()), Err(CryptoError::InvalidBase64));
}

#[test]
fn decrypt_of_less_than_a_block_is_empty() {
    // Valid Base64 of 3 bytes: not a whole AES block, so nothing decrypts.
    assert_eq!(decrypt("AAAA".to_string(), "".to_string()), Ok(String::new()));
}

#[test]
fn key_is_blake2b_16_of_password() {
    assert_eq!(
        derive_key(""),
        vec![0xca, 0xe6, 0x69, 0x41, 0xd9, 0xef, 0xbd, 0x40, 0x4e, 0x4d, 0x88, 0x75, 0x8e, 0xa6, 0x76, 0x70]
    );
    assert_eq!(
        derive_key("secret"),
        vec![0x8f, 0x64, 0xbf, 0xc2, 0x50, 0xac, 0x98, 0xec, 0xf5, 0xa0, 0xf6, 0xa5, 0x2c, 0xde, 0x7e, 0xc5]
    );
    assert_eq!(derive_key("pässwörd").len(), 16);
}

#[test]
fn iv_constant_is_base64() {
    assert_eq!(CBC_IV_BASE64, "dB0Ej+7zWZWTS5JUCldWMg==");
}

#[test]
fn encryption_is_deterministic() {
    let a = encrypt("same".to_string(), "pw".to_string());
    let b = encrypt("same".to_string(), "pw".to_string());
    assert_eq!(a, b);
    let c = encrypt("same".to_string(), "other".to_string());
    assert_ne!(a, c);
}
