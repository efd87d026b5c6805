//! AES-256-CBC encryption of stored passwords, done by OpenSSL.

use vstd::prelude::*;

verus! {

#[verifier::external_type_specification]
#[verifier::external_body]
pub struct ExErrorStack(openssl::error::ErrorStack);

/// The bytes that OpenSSL's AES-256-CBC encryption (PKCS#7 padding) gives for a key, an IV and
/// a plaintext.
pub uninterp spec fn aes_256_cbc_encrypted(key: Seq<u8>, iv: Seq<u8>, data: Seq<u8>) -> Seq<u8>;

/// The bytes that OpenSSL's AES-256-CBC decryption (PKCS#7 padding) gives for a key, an IV and
/// a ciphertext.
pub uninterp spec fn aes_256_cbc_decrypted(key: Seq<u8>, iv: Seq<u8>, data: Seq<u8>) -> Seq<u8>;

/// The longest input, in bytes, that OpenSSL's update step accepts (its length is passed as a C
/// `int`).
pub const MAX_CIPHER_INPUT: usize = 0x7fff_ffff;

/// Why a cipher operation failed: OpenSSL reported an error (wrong key or IV length, bad
/// padding, an internal failure).
#[derive(Debug, PartialEq, Eq, Structural)]
pub enum CryptoError {
    Openssl,
}

/// Calls `openssl::symm::encrypt` with `Cipher::aes_256_cbc()`. Trusted: an `Ok` result is the
/// ciphertext named by `aes_256_cbc_encrypted` of the arguments, and no other plaintext (of a
/// length OpenSSL accepts) encrypts to it under the same key and IV, since decryption inverts
/// encryption. Key and IV lengths other than the cipher's 32 and 16 bytes reach lengths that
/// OpenSSL converts with `unwrap` or asserts on, and inputs longer than `MAX_CIPHER_INPUT` bytes
/// make its update step panic, so both are left out. When the call fails is not stated: OpenSSL
/// decides it (allocation, internal errors).
#[verifier::external_body]
fn openssl_encrypt(key: &[u8], iv: &[u8], data: &[u8]) -> (r: Result<Vec<u8>, openssl::error::ErrorStack>)
    requires
        key@.len() == 32,
        iv@.len() == 16,
        data@.len() <= MAX_CIPHER_INPUT,
    ensures
        r matches Ok(v) ==> v@ == aes_256_cbc_encrypted(key@, iv@, data@),
        r matches Ok(v) ==> forall|m: Seq<u8>|
            m.len() <= MAX_CIPHER_INPUT && #[trigger] aes_256_cbc_encrypted(key@, iv@, m) == v@ ==> m == data@,
{
    openssl::symm::encrypt(openssl::symm::Cipher::aes_256_cbc(), key, Some(iv), data)
}

/// Calls `openssl::symm::decrypt` with `Cipher::aes_256_cbc()`. Trusted: an `Ok` result is the
/// plaintext named by `aes_256_cbc_decrypted` of the arguments, and decrypting what encryption
/// gave for a plaintext gives that plaintext back (CBC with PKCS#7 padding is inverted by
/// decryption under the same key and IV). Key and IV lengths other than 32 and 16 bytes, and
/// inputs longer than `MAX_CIPHER_INPUT` bytes, reach OpenSSL's `unwrap`s and asserts, so they
/// are left out. When the call fails is not stated: OpenSSL decides it (padding, allocation).
#[verifier::external_body]
fn openssl_decrypt(key: &[u8], iv: &[u8], data: &[u8]) -> (r: Result<Vec<u8>, openssl::error::ErrorStack>)
    requires
        key@.len() == 32,
        iv@.len() == 16,
        data@.len() <= MAX_CIPHER_INPUT,
    ensures
        r matches Ok(v) ==> v@ == aes_256_cbc_decrypted(key@, iv@, data@),
        r matches Ok(v) ==> forall|m: Seq<u8>|
            m.len() <= MAX_CIPHER_INPUT && data@ == #[trigger] aes_256_cbc_encrypted(key@, iv@, m) ==> v@ == m,
{
    openssl::symm::decrypt(openssl::symm::Cipher::aes_256_cbc(), key, Some(iv), data)
}

/// The library's answer to what an OpenSSL cipher call gave back: its bytes, or
/// `CryptoError::Openssl` for any OpenSSL error.
pub fn from_openssl(r: Result<Vec<u8>, openssl::error::ErrorStack>) -> (out: Result<Vec<u8>, CryptoError>)
    ensures
        r matches Ok(v) ==> out matches Ok(w) && w@ == v@,
        r is Err ==> out == Err::<Vec<u8>, CryptoError>(CryptoError::Openssl),
{
    match r {
        Ok(v) => Ok(v),
        Err(_) => Err(CryptoError::Openssl),
    }
}

/// Encrypts `data` with AES-256-CBC under a 32-byte `key` and a 16-byte `iv`; no other
/// plaintext gives the same ciphertext. Whether it succeeds is OpenSSL's
/// decision (key and IV lengths, allocation); its answer is passed on through `from_openssl`.
pub fn encrypt(data: &[u8], key: &[u8], iv: &[u8]) -> (r: Result<Vec<u8>, CryptoError>)
    requires
        key@.len() == 32,
        iv@.len() == 16,
        data@.len() <= MAX_CIPHER_INPUT,
    ensures
        r matches Ok(v) ==> v@ == aes_256_cbc_encrypted(key@, iv@, data@),
        r matches Ok(v) ==> forall|m: Seq<u8>|
            m.len() <= MAX_CIPHER_INPUT && #[trigger] aes_256_cbc_encrypted(key@, iv@, m) == v@ ==> m == data@,
        r matches Err(e) ==> e == CryptoError::Openssl,
{
    from_openssl(openssl_encrypt(key, iv, data))
}

/// Decrypts `data` with AES-256-CBC under a 32-byte `key` and a 16-byte `iv`. What `encrypt`
/// gave for a plaintext decrypts to that plaintext. Whether it succeeds is
/// OpenSSL's decision (key and IV lengths, padding, allocation); its answer is passed on through
/// `from_openssl`.
pub fn decrypt(data: &[u8], key: &[u8], iv: &[u8]) -> (r: Result<Vec<u8>, CryptoError>)
    requires
        key@.len() == 32,
        iv@.len() == 16,
        data@.len() <= MAX_CIPHER_INPUT,
    ensures
        r matches Ok(v) ==> v@ == aes_256_cbc_decrypted(key@, iv@, data@),
        r matches Ok(v) ==> forall|m: Seq<u8>|
            m.len() <= MAX_CIPHER_INPUT && data@ == #[trigger] aes_256_cbc_encrypted(key@, iv@, m) ==> v@ == m,
        r matches Err(e) ==> e == CryptoError::Openssl,
{
    from_openssl(openssl_decrypt(key, iv, data))
}

} // verus!
