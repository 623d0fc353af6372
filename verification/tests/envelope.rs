use rbackup::encryptor::{strip_pkcs_padding, Encryptor};
use rbackup::failures::CustomError;
use rbackup::sha256::sha256_bytes;

#[test]
fn encrypt_then_decrypt_recovers_the_secret() {
    let enc = Encryptor::new(String::from("0123456789abcdef"));
    let key = sha256_bytes(b"some-session-token");
    assert_eq!(key.len(), 32);
    let cipher = enc.encrypt(b"the storage passphrase", &key).expect("encryption succeeds");
    assert_ne!(cipher.as_slice(), b"the storage passphrase".as_slice());
    let plain = enc.decrypt(&cipher, &key).expect("decryption under the same key succeeds");
    assert_eq!(plain, b"the storage passphrase".to_vec());
}

#[test]
fn decrypt_under_another_key_fails_or_differs() {
    let enc = Encryptor::new(String::from("0123456789abcdef"));
    let key = sha256_bytes(b"token-one");
    let other = sha256_bytes(b"token-two");
    let cipher = enc.encrypt(b"secret", &key).expect("encryption succeeds");
    match enc.decrypt(&cipher, &other) {
        Err(_) => {}
        Ok(plain) => assert_ne!(plain, b"secret".to_vec()),
    }
}

#[test]
fn empty_plaintext_round_trips() {
    let enc = Encryptor::new(String::from("0123456789abcdef"));
    let key = sha256_bytes(b"token");
    let cipher = enc.encrypt(b"", &key).expect("encryption succeeds");
    let plain = enc.decrypt(&cipher, &key).expect("decryption succeeds");
    assert!(plain.is_empty());
}

#[test]
fn ciphertext_length_is_the_padded_length() {
    let enc = Encryptor::new(String::from("0123456789abcdef"));
    let key = sha256_bytes(b"token");
    assert_eq!(enc.encrypt(b"hello", &key).expect("encryption succeeds").len(), 16);
    assert_eq!(enc.encrypt(&[0u8; 16], &key).expect("encryption succeeds").len(), 32);
}

#[test]
fn decrypt_rejects_partial_blocks() {
    let enc = Encryptor::new(String::from("0123456789abcdef"));
    let key = sha256_bytes(b"token");
    assert!(enc.decrypt(&[0u8; 15], &key).is_err());
    assert!(enc.decrypt(&[0u8; 17], &key).is_err());
}

#[test]
fn padding_is_stripped_exactly() {
    assert_eq!(strip_pkcs_padding(&[]), Some(Vec::new()));
    assert_eq!(strip_pkcs_padding(&[0x61, 0x01]), Some(vec![0x61]));
    assert_eq!(
        strip_pkcs_padding(&[0x61, 0x02, 0x02, 0x03, 0x03, 0x03]),
        Some(vec![0x61, 0x02, 0x02])
    );
    // a count of zero, a wrong trailing byte, or a count past the length
    assert_eq!(strip_pkcs_padding(&[0x61, 0x00]), None);
    assert_eq!(strip_pkcs_padding(&[0x61, 0x02]), None);
    assert_eq!(strip_pkcs_padding(&[0x03]), None);
    // a whole block of one byte above sixteen is rejected, not stripped
    assert_eq!(strip_pkcs_padding(&[0x20; 16]), None);
    assert_eq!(strip_pkcs_padding(&[0x11; 16]), None);
    assert_eq!(strip_pkcs_padding(&[0x10; 16]), Some(Vec::new()));
}

#[test]
fn custom_error_keeps_its_description() {
    let e = CustomError::new("something went wrong");
    assert_eq!(e.description(), "something went wrong");
    assert_eq!(e.render(), "Failure: something went wrong");
}
