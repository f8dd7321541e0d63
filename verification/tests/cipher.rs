use lumen::{Cipher, CipherError};

fn hex(bytes: &[u8]) -> String {
    bytes.iter().map(|b| format!("{:02x}", b)).collect()
}

fn rfc_key() -> Vec<u8> {
    let mut key = vec![0u8; 32];
    key[0] = 1;
    key
}

fn rfc_nonce() -> Vec<u8> {
    let mut nonce = vec![0u8; 12];
    nonce[0] = 3;
    nonce
}

#[test]
fn sealing_matches_rfc8452_vector_for_empty_message() {
    let cipher = Cipher::from_bytes(rfc_key(), rfc_nonce());
    let sealed = cipher.encrypt(b"").unwrap();
    assert_eq!(hex(&sealed), "07f5f4169bbf55a8400cd47ea6fd400f");
}

#[test]
fn sealing_matches_rfc8452_vector_for_eight_bytes() {
    let cipher = Cipher::from_bytes(rfc_key(), rfc_nonce());
    let sealed = cipher.encrypt(&[1, 0, 0, 0, 0, 0, 0, 0]).unwrap();
    assert_eq!(hex(&sealed), "c2ef328e5c71c83b843122130f7364b761e0b97427e3df28");
}

#[test]
fn decrypt_gives_back_what_encrypt_sealed() {
    let cipher = Cipher::default();
    let message = b"a picture worth a thousand words".to_vec();
    let sealed = cipher.encrypt(&message).unwrap();
    assert_eq!(sealed.len(), message.len() + 16);
    assert_ne!(&sealed[..message.len()], &message[..]);
    assert_eq!(cipher.decrypt(&sealed).unwrap(), message);
    assert!(cipher.verify(&sealed));
}

#[test]
fn another_key_does_not_open_the_file() {
    let owner = Cipher::default();
    let stranger = Cipher::default();
    let sealed = owner.encrypt(b"private").unwrap();
    assert_eq!(stranger.decrypt(&sealed), Err(CipherError::Aead));
    assert!(!stranger.verify(&sealed));
}

#[test]
fn tampered_bytes_do_not_open() {
    let cipher = Cipher::default();
    let mut sealed = cipher.encrypt(b"private").unwrap();
    sealed[0] ^= 1;
    assert_eq!(cipher.decrypt(&sealed), Err(CipherError::Aead));
    assert!(!cipher.verify(&sealed));
}

#[test]
fn too_short_ciphertext_does_not_open() {
    let cipher = Cipher::default();
    assert_eq!(cipher.decrypt(&[0u8; 5]), Err(CipherError::Aead));
}

#[test]
fn base64_of_zero_key_and_nonce() {
    let cipher = Cipher::from_bytes(vec![0u8; 32], vec![0u8; 12]);
    let (key, nonce) = cipher.to_base64();
    assert_eq!(key, "A".repeat(43));
    assert_eq!(nonce, "A".repeat(16));
}

#[test]
fn base64_uses_url_safe_alphabet_without_padding() {
    let cipher = Cipher::from_bytes(vec![0xffu8; 32], vec![0xfbu8; 12]);
    let (key, nonce) = cipher.to_base64();
    assert_eq!(key, format!("{}8", "_".repeat(42)));
    assert_eq!(nonce, "-_v7".repeat(4));
}

#[test]
fn from_base64_gives_back_the_cipher() {
    let cipher = Cipher::default();
    let (key, nonce) = cipher.to_base64();
    let sealed = cipher.encrypt(b"round trip").unwrap();
    let again = Cipher::from_base64(&key, &nonce).unwrap();
    assert_eq!(again.to_base64(), (key.clone(), nonce.clone()));
    assert_eq!(again.decrypt(&sealed).unwrap(), b"round trip".to_vec());
    let checked = Cipher::try_from_base64(&key, &nonce).unwrap();
    assert_eq!(checked.decrypt(&sealed).unwrap(), b"round trip".to_vec());
}

#[test]
fn from_base64_refuses_text_that_is_not_base64() {
    assert!(matches!(Cipher::from_base64("!!!", "AAAAAAAAAAAAAAAA"), Err(CipherError::InvalidBase64)));
    let key = "A".repeat(43);
    assert!(matches!(Cipher::from_base64(&key, "AAAA="), Err(CipherError::InvalidBase64)));
}

#[test]
fn try_from_base64_reports_each_failure() {
    let key = "A".repeat(43);
    let nonce = "A".repeat(16);
    assert!(matches!(Cipher::try_from_base64("***", &nonce), Err(CipherError::InvalidBase64)));
    assert!(matches!(Cipher::try_from_base64(&key, "***"), Err(CipherError::InvalidBase64)));
    assert!(matches!(Cipher::try_from_base64("AAAA", &nonce), Err(CipherError::InvalidKeyLength)));
    assert!(matches!(Cipher::try_from_base64(&key, "AAAA"), Err(CipherError::InvalidNonceLength)));
    assert!(Cipher::try_from_base64(&key, &nonce).is_ok());
}

#[test]
fn fresh_ciphers_differ() {
    assert_ne!(Cipher::default().to_base64(), Cipher::default().to_base64());
}

#[test]
fn input_shorter_than_a_tag_never_verifies() {
    let cipher = Cipher::default();
    assert!(!cipher.verify(&[0u8; 15]));
    assert!(!cipher.verify(&[]));
}

#[test]
fn text_outside_the_url_safe_alphabet_is_refused() {
    let nonce = "A".repeat(16);
    assert!(matches!(Cipher::from_base64("!", &nonce), Err(CipherError::InvalidBase64)));
    assert!(matches!(Cipher::from_base64("a+b/", &nonce), Err(CipherError::InvalidBase64)));
}

#[test]
fn decoded_text_encodes_back_to_itself() {
    let key = format!("{}w", "Zm9v".repeat(10) + "Zm");
    let nonce = "AQIDBAUGBwgJCgsM".to_string();
    let c = Cipher::from_base64(&key, &nonce).unwrap();
    assert_eq!(c.to_base64(), (key.clone(), nonce.clone()));
    assert!(matches!(Cipher::try_from_base64(&format!("{}x", "Zm9v".repeat(10) + "Zm"), &nonce), Err(CipherError::InvalidBase64)));
}

#[test]
fn base64_texts_of_a_fresh_cipher() {
    let (key, nonce) = Cipher::default().to_base64();
    assert_eq!(key.len(), 43);
    assert_eq!(nonce.len(), 16);
    let url_safe = |c: char| c.is_ascii_alphanumeric() || c == '-' || c == '_';
    assert!(key.chars().all(url_safe));
    assert!(nonce.chars().all(url_safe));
}

#[test]
fn empty_text_decodes_to_no_bytes() {
    let nonce = "A".repeat(16);
    assert!(matches!(Cipher::try_from_base64("", &nonce), Err(CipherError::InvalidKeyLength)));
    let key = "A".repeat(43);
    assert!(matches!(Cipher::try_from_base64(&key, ""), Err(CipherError::InvalidNonceLength)));
}
