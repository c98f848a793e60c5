//! Encryption of snippet text under a password: the key is the 16-byte
//! BLAKE2b digest of the password, the cipher AES-128-CBC with a fixed IV,
//! and the ciphertext is carried as standard Base64.

use vstd::prelude::*;
use vstd::utf8::*;
use blake2::Blake2bVar;
use blake2::digest::VariableOutput;
use vstd::slice::slice_subrange;
use crate::cipher::{
    aes_128_cbc, decryptor_new, decryptor_read_to_end, encryptor_finish, encryptor_input,
    encryptor_new, encryptor_setup, encryptor_write, evp_decrypt, evp_decrypt_updates,
    evp_encrypt, AES_128_CBC_NID,
};
use crate::codec::{
    base64_decode_spec, base64_encode, base64_encode_spec, base64_encoded_len, decode_base64,
    lemma_base64_decode_encode, lemma_encode_len, read_text, text_of, utf8_lossy,
};

verus! {

broadcast use {encode_utf8_valid_utf8, encode_utf8_decode_utf8};

/// Why decryption did not give a text.
#[derive(Debug, Clone, Copy, PartialEq, Eq, Structural)]
pub enum CryptoError {
    /// The ciphertext is not standard, padded Base64.
    InvalidBase64,
}

/// The BLAKE2b digest of `input` with an output of `out_len` bytes.
pub uninterp spec fn blake2b_var(input: Seq<u8>, out_len: nat) -> Seq<u8>;

/// `VariableOutput::digest_variable` of `blake2::Blake2bVar`, into an output
/// of `out_len` bytes: BLAKE2b of `input` with that output size. It fails
/// exactly when `out_len` exceeds BLAKE2b's largest output, 64 bytes.
#[verifier::external_body]
fn blake2b_var_digest(input: &[u8], out_len: usize) -> (digest: Option<Vec<u8>>)
    ensures
        digest is Some <==> out_len <= 64,
        digest matches Some(d) ==> d@ == blake2b_var(input@, out_len as nat) && d@.len()
            == out_len,
{
    let mut out = vec![0u8; out_len];
    match Blake2bVar::digest_variable(input, &mut out) {
        Ok(()) => Some(out),
        Err(_) => None,
    }
}

/// The length of the key, in bytes.
pub const KEY_LEN: usize = 16;

/// The key for a password: the 16-byte BLAKE2b digest of its UTF-8 bytes.
pub open spec fn key_of(password: Seq<char>) -> Seq<u8> {
    blake2b_var(encode_utf8(password), KEY_LEN as nat)
}

/// The key of a password is the 16-byte BLAKE2b digest of all of its UTF-8
/// bytes.
pub proof fn lemma_key_of(password: Seq<char>)
    ensures
        key_of(password) == blake2b_var(encode_utf8(password), 16),
{
}

/// Derives the 16-byte key from a password.
pub fn derive_key(password: &str) -> (key: Vec<u8>)
    ensures
        key@ == key_of(password@),
        key@ == blake2b_var(encode_utf8(password@), 16),
        key@.len() == KEY_LEN,
{
    blake2b_var_digest(password.as_bytes(), KEY_LEN).unwrap()
}

/// The IV, in standard Base64 as the library carries it.
pub const CBC_IV_BASE64: &'static str = "dB0Ej+7zWZWTS5JUCldWMg==";

/// The 16 bytes of the IV.
pub open spec fn cbc_iv() -> Seq<u8> {
    seq![
        0x74u8, 0x1d, 0x04, 0x8f, 0xee, 0xf3, 0x59, 0x95,
        0x93, 0x4b, 0x92, 0x54, 0x0a, 0x57, 0x56, 0x32,
    ]
}

/// `CBC_IV_BASE64` is the encoding of `cbc_iv`.
pub proof fn lemma_cbc_iv_encoding()
    ensures
        base64_encode_spec(cbc_iv()) == CBC_IV_BASE64@,
        base64_decode_spec(CBC_IV_BASE64@) == Some(cbc_iv()),
        base64_decode_spec("dB0Ej+7zWZWTS5JUCldWMg=="@) == Some(cbc_iv()),
        cbc_iv() == seq![
            0x74u8, 0x1d, 0x04, 0x8f, 0xee, 0xf3, 0x59, 0x95,
            0x93, 0x4b, 0x92, 0x54, 0x0a, 0x57, 0x56, 0x32,
        ],
{
    reveal_strlit("dB0Ej+7zWZWTS5JUCldWMg==");
    reveal_with_fuel(base64_encode_spec, 7);
    assert(base64_encode_spec(cbc_iv()) =~= CBC_IV_BASE64@);
    lemma_base64_decode_encode(cbc_iv());
}

/// The length of the AES-128-CBC encryption, with PKCS#7 padding, of `n`
/// bytes.
pub open spec fn padded_len(n: nat) -> nat {
    (n / 16 + 1) * 16
}

/// The ciphertext of the bytes `plain` under `key`: their AES-128-CBC
/// encryption with the fixed IV, and nothing for nothing.
pub open spec fn ciphertext_of(plain: Seq<u8>, key: Seq<u8>) -> Seq<u8> {
    if plain.len() == 0 {
        seq![]
    } else {
        evp_encrypt(AES_128_CBC_NID as int, key, cbc_iv(), plain)
    }
}

/// The plaintext of the bytes `ct` under `key`: their AES-128-CBC decryption
/// with the fixed IV; where the padding of the last block is bad (a wrong
/// password, or a length that is no whole number of blocks), what was
/// decrypted before the last block; and nothing for nothing.
pub open spec fn plaintext_of(ct: Seq<u8>, key: Seq<u8>) -> Seq<u8> {
    if ct.len() == 0 {
        seq![]
    } else {
        match evp_decrypt(AES_128_CBC_NID as int, key, cbc_iv(), ct) {
            Some(plain) => plain,
            None => evp_decrypt_updates(AES_128_CBC_NID as int, key, cbc_iv(), ct),
        }
    }
}

/// Ciphertexts of every length are made, and read, under the one fixed IV.
pub proof fn lemma_fixed_iv(bytes: Seq<u8>, key: Seq<u8>)
    ensures
        bytes.len() > 0 ==> ciphertext_of(bytes, key) == evp_encrypt(
            AES_128_CBC_NID as int,
            key,
            seq![
                0x74u8, 0x1d, 0x04, 0x8f, 0xee, 0xf3, 0x59, 0x95,
                0x93, 0x4b, 0x92, 0x54, 0x0a, 0x57, 0x56, 0x32,
            ],
            bytes,
        ),
        bytes.len() > 0 ==> (evp_decrypt(
            AES_128_CBC_NID as int,
            key,
            seq![
                0x74u8, 0x1d, 0x04, 0x8f, 0xee, 0xf3, 0x59, 0x95,
                0x93, 0x4b, 0x92, 0x54, 0x0a, 0x57, 0x56, 0x32,
            ],
            bytes,
        ) matches Some(m) ==> plaintext_of(bytes, key) == m),
{
}

/// The encryption of `text` under `password`: the Base64 of the ciphertext
/// of its UTF-8 bytes under the password's key.
pub open spec fn encrypt_spec(text: Seq<char>, password: Seq<char>) -> Seq<char> {
    base64_encode_spec(ciphertext_of(encode_utf8(text), key_of(password)))
}

/// The decryption of `ciphertext` under `password`: the text read from the
/// plaintext of its Base64 decoding under the password's key; `None` where
/// it is not Base64.
pub open spec fn decrypt_spec(ciphertext: Seq<char>, password: Seq<char>) -> Option<Seq<char>> {
    match base64_decode_spec(ciphertext) {
        None => None,
        Some(ct) => Some(text_of(plaintext_of(ct, key_of(password)))),
    }
}

/// Decodes the fixed IV.
fn cbc_iv_bytes() -> (iv: Vec<u8>)
    ensures
        iv@ == cbc_iv(),
{
    proof {
        lemma_cbc_iv_encoding();
    }
    decode_base64(CBC_IV_BASE64).unwrap()
}

/// Encrypts `t` under `password`, giving Base64 text. Decrypting that text
/// under the same password gives `t` back.
pub fn encrypt(t: String, password: String) -> (ct: String)
    requires
        base64_encoded_len(padded_len(encode_utf8(t@).len())) <= usize::MAX,
    ensures
        ct@ == encrypt_spec(t@, password@),
        decrypt_spec(ct@, password@) == Some(t@),
        base64_decode_spec(ct@) matches Some(c) && c.len() == if t@.len() == 0 {
            0
        } else {
            padded_len(encode_utf8(t@).len())
        },
        ct@.len() == if t@.len() == 0 {
            0
        } else {
            base64_encoded_len(padded_len(encode_utf8(t@).len()))
        },
        t@.len() > 0 ==> ct@ == base64_encode_spec(
            evp_encrypt(
                AES_128_CBC_NID as int,
                blake2b_var(encode_utf8(password@), 16),
                seq![
                    0x74u8, 0x1d, 0x04, 0x8f, 0xee, 0xf3, 0x59, 0x95,
                    0x93, 0x4b, 0x92, 0x54, 0x0a, 0x57, 0x56, 0x32,
                ],
                encode_utf8(t@),
            ),
        ),
        t@.len() == 0 ==> ct@ == Seq::<char>::empty(),
{
    let key = derive_key(password.as_str());
    let src = t.as_str().as_bytes();
    let iv = cbc_iv_bytes();
    let cipher = aes_128_cbc();
    let mut stream = encryptor_new(Vec::new(), cipher, key.as_slice(), iv.as_slice()).unwrap();
    let mut written: usize = 0;
    while written < src.len()
        invariant
            written <= src@.len(),
            encryptor_input(stream) == src@.subrange(0, written as int),
            encryptor_setup(stream) == (AES_128_CBC_NID as int, key@, iv@),
            key@.len() == 16,
            iv@.len() == 16,
        decreases src@.len() - written,
    {
        let rest = slice_subrange(src, written, src.len());
        let n = encryptor_write(&mut stream, rest).unwrap();
        assert(src@.subrange(0, (written + n) as int) =~= src@.subrange(0, written as int)
            + rest@.subrange(0, n as int));
        written = written + n;
    }
    assert(src@.subrange(0, written as int) =~= src@);
    let ct = encryptor_finish(stream).unwrap();
    proof {
        lemma_base64_decode_encode(ct@);
        lemma_encode_len(ct@);
        lemma_encode_utf8_empty(t@);
    }
    base64_encode(ct.as_slice())
}

/// Decrypts the Base64 text `ct` under `password`, reading the plaintext as
/// UTF-8 with each invalid sequence replaced by U+FFFD. Under a wrong
/// password the padding check fails and the text is read from what was
/// decrypted before the last block. It fails exactly where `ct` is not
/// standard, padded Base64.
pub fn decrypt(ct: String, password: String) -> (result: Result<String, CryptoError>)
    ensures
        result matches Ok(text) ==> decrypt_spec(ct@, password@) == Some(text@),
        result is Err <==> base64_decode_spec(ct@) is None,
        base64_decode_spec(ct@) matches Some(c) ==> result matches Ok(text) && text@ == ({
            let key = blake2b_var(encode_utf8(password@), 16);
            let iv = seq![
                0x74u8, 0x1d, 0x04, 0x8f, 0xee, 0xf3, 0x59, 0x95,
                0x93, 0x4b, 0x92, 0x54, 0x0a, 0x57, 0x56, 0x32,
            ];
            let m = if c.len() == 0 {
                Seq::<u8>::empty()
            } else {
                match evp_decrypt(AES_128_CBC_NID as int, key, iv, c) {
                    Some(plain) => plain,
                    None => evp_decrypt_updates(AES_128_CBC_NID as int, key, iv, c),
                }
            };
            if valid_utf8(m) {
                decode_utf8(m)
            } else {
                utf8_lossy(m)
            }
        }),
{
    let key = derive_key(password.as_str());
    let src = match decode_base64(ct.as_str()) {
        Some(s) => s,
        None => return Err(CryptoError::InvalidBase64),
    };
    let iv = cbc_iv_bytes();
    let cipher = aes_128_cbc();
    let stream = decryptor_new(src, cipher, key.as_slice(), iv.as_slice()).unwrap();
    let mut decrypted: Vec<u8> = Vec::new();
    // A bad final block still leaves what was decrypted before it.
    let _padding_good = decryptor_read_to_end(stream, &mut decrypted);
    Ok(read_text(decrypted.as_slice()))
}

/// A text is empty exactly when its UTF-8 encoding is.
pub proof fn lemma_encode_utf8_empty(text: Seq<char>)
    ensures
        (text.len() == 0) == (encode_utf8(text).len() == 0),
{
    if encode_utf8(text).len() == 0 {
        assert(encode_utf8(text) =~= Seq::<u8>::empty());
        assert(decode_utf8(encode_utf8(text)) == text);
        assert(decode_utf8(Seq::<u8>::empty()) =~= Seq::<char>::empty());
    }
}

/// The empty text encrypts to the empty text, whatever the password.
pub proof fn lemma_encrypt_empty(password: Seq<char>)
    ensures
        encrypt_spec(Seq::<char>::empty(), password) == Seq::<char>::empty(),
{
    lemma_encode_utf8_empty(Seq::<char>::empty());
    assert(base64_encode_spec(Seq::<u8>::empty()) =~= Seq::<char>::empty());
}

} // verus!
