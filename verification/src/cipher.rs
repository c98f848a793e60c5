//! AES-128-CBC streams of the `cryptostream` crate over OpenSSL, as the
//! library uses them: an encrypting stream is made with a cipher, a key and
//! an IV, takes its input in pieces, and hands back its whole output when
//! finished; a decrypting stream reads its ciphertext from memory and gives
//! out what it decrypts.

use vstd::prelude::*;
use cryptostream::read;
use cryptostream::write::Encryptor;
use openssl::symm::Cipher;
use std::io::{Cursor, Read, Write};

verus! {

#[verifier::external_type_specification]
#[verifier::external_body]
pub struct ExCipher(Cipher);

/// An encrypting `cryptostream` stream whose sink is a `Vec`; what the
/// library knows of it is stated by `encryptor_input` and `encryptor_setup`.
#[verifier::external_body]
pub struct EncryptStream {
    inner: Encryptor<Vec<u8>>,
}

/// A decrypting `cryptostream` stream that reads its ciphertext from memory;
/// what the library knows of it is stated by `decryptor_setup`.
#[verifier::external_body]
pub struct DecryptStream {
    inner: read::Decryptor<Cursor<Vec<u8>>>,
}

/// The OpenSSL NID of AES-128-CBC (`NID_aes_128_cbc`).
pub const AES_128_CBC_NID: i32 = 419;

/// The OpenSSL NID that identifies a cipher, as `Cipher::nid` reports it.
pub uninterp spec fn cipher_nid(cipher: Cipher) -> int;

/// The bytes that an encrypting stream has taken so far.
pub uninterp spec fn encryptor_input(stream: EncryptStream) -> Seq<u8>;

/// The cipher's NID, the key and the IV that an encrypting stream was made with.
pub uninterp spec fn encryptor_setup(stream: EncryptStream) -> (int, Seq<u8>, Seq<u8>);

/// The cipher's NID, the key, the IV and the ciphertext that a decrypting
/// stream was made with.
pub uninterp spec fn decryptor_setup(stream: DecryptStream) -> (int, Seq<u8>, Seq<u8>, Seq<u8>);

/// Whether a stream's cipher, key and IV are AES-128-CBC with a 16-byte key
/// and IV.
pub open spec fn aes_128_setup(setup: (int, Seq<u8>, Seq<u8>)) -> bool {
    setup.0 == AES_128_CBC_NID && setup.1.len() == 16 && setup.2.len() == 16
}

/// What OpenSSL's EVP interface outputs, in all, when it encrypts the
/// non-empty `data` with padding, under the cipher `nid`, `key` and `iv`.
pub uninterp spec fn evp_encrypt(nid: int, key: Seq<u8>, iv: Seq<u8>, data: Seq<u8>) -> Seq<u8>;

/// What OpenSSL's EVP interface outputs, in all, when it decrypts the
/// non-empty `data` with padding, under the cipher `nid`, `key` and `iv`;
/// `None` where it reports an error (a bad final block).
pub uninterp spec fn evp_decrypt(nid: int, key: Seq<u8>, iv: Seq<u8>, data: Seq<u8>) -> Option<Seq<u8>>;

/// What OpenSSL's EVP update calls output, in all, when they decrypt the
/// non-empty `data` with padding, under the cipher `nid`, `key` and `iv`:
/// everything but what the final call would add, however the data is split
/// between the calls.
pub uninterp spec fn evp_decrypt_updates(nid: int, key: Seq<u8>, iv: Seq<u8>, data: Seq<u8>) -> Seq<u8>;

/// `Cipher::aes_128_cbc` of `openssl`: the AES cipher with a 128-bit key in
/// CBC mode, whose NID is `NID_aes_128_cbc`.
#[verifier::external_body]
pub(crate) fn aes_128_cbc() -> (cipher: Cipher)
    ensures
        cipher_nid(cipher) == AES_128_CBC_NID,
{
    Cipher::aes_128_cbc()
}

/// `write::Encryptor::new` of `cryptostream`, over an empty `Vec` as the
/// sink. OpenSSL takes AES-128-CBC with a 16-byte key and IV, so the stream
/// is made for that cipher; a new stream has taken nothing yet.
#[verifier::external_body]
pub(crate) fn encryptor_new(sink: Vec<u8>, cipher: Cipher, key: &[u8], iv: &[u8]) -> (stream:
    Option<EncryptStream>)
    requires
        sink@.len() == 0,
        key@.len() == 16,
        iv@.len() == 16,
    ensures
        cipher_nid(cipher) == AES_128_CBC_NID ==> stream is Some,
        stream matches Some(s) ==> encryptor_input(s) == Seq::<u8>::empty() && encryptor_setup(s)
            == (cipher_nid(cipher), key@, iv@),
{
    match Encryptor::new(sink, cipher, key, iv) {
        Ok(inner) => Some(EncryptStream { inner }),
        Err(_) => None,
    }
}

/// `Write::write` of `write::Encryptor`: the stream takes a prefix of `buf`,
/// of at most 4096 bytes less one cipher block, and returns its length; that
/// is not zero unless `buf` is empty. Under AES-128-CBC with a 16-byte key
/// and IV, OpenSSL reports no error; elsewhere, after an error (`None`),
/// nothing is claimed of what the stream has taken.
#[verifier::external_body]
pub(crate) fn encryptor_write(stream: &mut EncryptStream, buf: &[u8]) -> (taken: Option<usize>)
    ensures
        encryptor_setup(*final(stream)) == encryptor_setup(*old(stream)),
        aes_128_setup(encryptor_setup(*old(stream))) ==> taken is Some,
        taken matches Some(n) ==> n <= buf@.len() && (buf@.len() > 0 ==> n > 0)
            && encryptor_input(*final(stream)) == encryptor_input(*old(stream)) + buf@.subrange(
            0,
            n as int,
        ),
{
    stream.inner.write(buf).ok()
}

/// `write::Encryptor::finish` of `cryptostream`: pads and encrypts the last
/// block and hands back the sink, which then holds the encryption of all that
/// the stream took (nothing at all where it took nothing). Under AES-128-CBC
/// with a 16-byte key and IV, PKCS#7 padding makes that output one to sixteen
/// bytes longer than the input, a whole number of blocks, and decrypting it
/// gives the input back, and OpenSSL reports no error; elsewhere it may
/// (`None`).
#[verifier::external_body]
pub(crate) fn encryptor_finish(stream: EncryptStream) -> (output: Option<Vec<u8>>)
    ensures
        aes_128_setup(encryptor_setup(stream)) ==> output is Some,
        output matches Some(out) ==> {
            let (nid, key, iv) = encryptor_setup(stream);
            let input = encryptor_input(stream);
            &&& input.len() == 0 ==> out@.len() == 0
            &&& input.len() > 0 ==> out@ == evp_encrypt(nid, key, iv, input)
            &&& (input.len() > 0 && nid == AES_128_CBC_NID && key.len() == 16 && iv.len() == 16)
                ==> out@.len() == (input.len() / 16 + 1) * 16 && evp_decrypt(nid, key, iv, out@)
                == Some(input)
        },
{
    stream.inner.finish().ok()
}

/// `read::Decryptor::new` of `cryptostream`, reading the ciphertext from an
/// in-memory cursor. OpenSSL takes AES-128-CBC with a 16-byte key and IV, so
/// the stream is made for that cipher.
#[verifier::external_body]
pub(crate) fn decryptor_new(ciphertext: Vec<u8>, cipher: Cipher, key: &[u8], iv: &[u8]) -> (stream:
    Option<DecryptStream>)
    requires
        key@.len() == 16,
        iv@.len() == 16,
    ensures
        cipher_nid(cipher) == AES_128_CBC_NID ==> stream is Some,
        stream matches Some(s) ==> decryptor_setup(s) == (cipher_nid(cipher), key@, iv@, ciphertext@),
{
    match read::Decryptor::new(Cursor::new(ciphertext), cipher, key, iv) {
        Ok(inner) => Some(DecryptStream { inner }),
        Err(_) => None,
    }
}

/// `Read::read_to_end` of `read::Decryptor`, into `out`. Under AES-128-CBC
/// with a 16-byte key and IV it appends what OpenSSL decrypts: the whole
/// plaintext where the padding of the last block is good (nothing at all for
/// an empty ciphertext), and else, as std documents for a failed
/// `read_to_end`, what was read before the failure: the output of OpenSSL's
/// update calls. It reports whether the padding was good.
#[verifier::external_body]
pub(crate) fn decryptor_read_to_end(stream: DecryptStream, out: &mut Vec<u8>) -> (complete: bool)
    ensures
        ({
            let (nid, key, iv, ct) = decryptor_setup(stream);
            (nid == AES_128_CBC_NID && key.len() == 16 && iv.len() == 16) ==> {
                &&& complete == (ct.len() == 0 || evp_decrypt(nid, key, iv, ct) is Some)
                &&& final(out)@ == old(out)@ + if ct.len() == 0 {
                    Seq::<u8>::empty()
                } else {
                    match evp_decrypt(nid, key, iv, ct) {
                        Some(plain) => plain,
                        None => evp_decrypt_updates(nid, key, iv, ct),
                    }
                }
            }
        }),
{
    let mut reader = stream.inner;
    match reader.read_to_end(out) {
        Ok(_) => true,
        Err(_) => false,
    }
}

} // verus!
