use zz_metasvr::aes_wrapper;
use zz_metasvr::aes_wrapper::CryptoError;

fn hex(bytes: &[u8]) -> String {
    bytes.iter().map(|b| format!("{:02x}", b)).collect()
}

#[test]
fn crypto_test() {
    let message = "Hello World!";

    let key: [u8; 32] = [65; 32];
    let iv: [u8; 16] = [97; 16];

    let encrypted_data = aes_wrapper::encrypt(message.as_bytes(), &key, &iv).ok().unwrap();
    let decrypted_data = aes_wrapper::decrypt(&encrypted_data[..], &key, &iv).ok().unwrap();

    assert!(message.as_bytes() == &decrypted_data[..]);
}

#[test]
fn encrypt_gives_the_aes_256_cbc_ciphertext() {
    let key: [u8; 32] = [65; 32];
    let iv: [u8; 16] = [97; 16];
    let encrypted = aes_wrapper::encrypt(b"Hello World!", &key, &iv).unwrap();
    assert_eq!(hex(&encrypted), "92910d8ec7c93a11401e0b3b4bc33dcd");
}

#[test]
fn decrypt_inverts_encrypt_on_longer_text() {
    let key: [u8; 32] = [7; 32];
    let iv: [u8; 16] = [3; 16];
    let message: Vec<u8> = (0u8..100).collect();
    let encrypted = aes_wrapper::encrypt(&message, &key, &iv).unwrap();
    assert_ne!(encrypted, message);
    assert_eq!(encrypted.len(), 112);
    let decrypted = aes_wrapper::decrypt(&encrypted, &key, &iv).unwrap();
    assert_eq!(decrypted, message);
}

#[test]
fn bad_ciphertext_is_an_error() {
    let key: [u8; 32] = [65; 32];
    let iv: [u8; 16] = [97; 16];
    assert_eq!(aes_wrapper::decrypt(&[1, 2, 3], &key, &iv), Err(CryptoError::Openssl));
}

#[test]
fn from_openssl_passes_bytes_and_maps_errors() {
    assert_eq!(aes_wrapper::from_openssl(Ok(vec![1, 2, 3])), Ok(vec![1, 2, 3]));
    let err = openssl::error::ErrorStack::get();
    assert_eq!(aes_wrapper::from_openssl(Err(err)), Err(CryptoError::Openssl));
}
