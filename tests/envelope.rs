use encrypt_cli::encrypt_lib::encryption::{decrypt_bytes, encrypt_bytes};
use encrypt_cli::encrypt_lib::errors::ErrorKind;
use encrypt_cli::encrypt_lib::identity::{Identity, PublicKey};

fn seal_for(payload: &[u8], ids: &[&Identity]) -> Vec<u8> {
    let keys: Vec<PublicKey> = ids.iter().map(|id| id.to_public()).collect();
    encrypt_bytes(payload, keys).expect("encryption succeeds")
}

#[test]
fn round_trip_single_recipient() {
    let id = Identity::generate();
    let payload = b"attack at dawn".to_vec();
    let envelope = seal_for(&payload, &[&id]);
    assert!(!envelope.is_empty());
    assert_ne!(envelope, payload);
    assert_eq!(decrypt_bytes(envelope, &id).unwrap(), payload);
}

#[test]
fn round_trip_empty_payload() {
    let id = Identity::generate();
    let envelope = seal_for(&[], &[&id]);
    assert_eq!(decrypt_bytes(envelope, &id).unwrap(), Vec::<u8>::new());
}

#[test]
fn round_trip_large_payload() {
    let id = Identity::generate();
    let payload: Vec<u8> = (0..200_000u32).map(|i| (i % 251) as u8).collect();
    let envelope = seal_for(&payload, &[&id]);
    assert_eq!(decrypt_bytes(envelope, &id).unwrap(), payload);
}

#[test]
fn every_recipient_decrypts() {
    let a = Identity::generate();
    let b = Identity::generate();
    let c = Identity::generate();
    let payload = b"for all three".to_vec();
    let envelope = seal_for(&payload, &[&a, &b, &c]);
    for id in [&a, &b, &c] {
        assert_eq!(decrypt_bytes(envelope.clone(), id).unwrap(), payload);
    }
}

#[test]
fn unrelated_identity_fails() {
    let a = Identity::generate();
    let b = Identity::generate();
    let d = Identity::generate();
    let envelope = seal_for(b"secret", &[&a, &b]);
    let e = decrypt_bytes(envelope, &d).unwrap_err();
    assert_eq!(e.kind, ErrorKind::Encryption);
    assert_eq!(e.to_string(), "Encryption Error: Failed to create reader");
}

#[test]
fn flipped_ciphertext_bytes_fail() {
    let id = Identity::generate();
    let envelope = seal_for(b"tamper me", &[&id]);
    // The payload follows the header line "--- <mac>\n" and a 16-byte nonce.
    let mac_line = envelope.windows(4).position(|w| w == b"\n---").unwrap() + 1;
    let header_end = mac_line + envelope[mac_line..].iter().position(|&b| b == b'\n').unwrap() + 1;
    for i in header_end + 16..envelope.len() {
        let mut tampered = envelope.clone();
        tampered[i] ^= 0x01;
        let e = decrypt_bytes(tampered, &id).unwrap_err();
        assert_eq!(e.kind, ErrorKind::Encryption);
    }
}

#[test]
fn flipped_last_byte_fails() {
    let id = Identity::generate();
    let mut envelope = seal_for(b"tamper me", &[&id]);
    let last = envelope.len() - 1;
    envelope[last] ^= 0x80;
    assert_eq!(
        decrypt_bytes(envelope, &id).unwrap_err().to_string(),
        "Encryption Error: Failed to read plaintext"
    );
}

#[test]
fn empty_recipients_rejected() {
    let e = encrypt_bytes(b"hello", Vec::new()).unwrap_err();
    assert_eq!(e.kind, ErrorKind::Encryption);
    assert_eq!(e.to_string(), "Encryption Error: No recipients passed");
    let e = encrypt_bytes(&[], Vec::new()).unwrap_err();
    assert_eq!(e.to_string(), "Encryption Error: No recipients passed");
}

#[test]
fn garbage_envelope_fails() {
    let id = Identity::generate();
    let e = decrypt_bytes(b"not an age file".to_vec(), &id).unwrap_err();
    assert_eq!(e.to_string(), "Encryption Error: Failed to create decrypter");
    let e = decrypt_bytes(Vec::new(), &id).unwrap_err();
    assert_eq!(e.kind, ErrorKind::Encryption);
}

#[test]
fn truncated_envelope_fails() {
    let id = Identity::generate();
    let envelope = seal_for(b"some longer payload text", &[&id]);
    let cut = envelope[..envelope.len() - 5].to_vec();
    assert_eq!(decrypt_bytes(cut, &id).unwrap_err().kind, ErrorKind::Encryption);
}

#[test]
fn upper_case_recipient_round_trip() {
    let id = Identity::generate();
    let upper = id.to_public().as_str().to_uppercase();
    let key = encrypt_cli::encrypt_lib::identity::get_recipient_from_str(&upper).unwrap();
    let envelope = encrypt_bytes(b"shouted", vec![key]).unwrap();
    assert_eq!(decrypt_bytes(envelope, &id).unwrap(), b"shouted".to_vec());
}

#[test]
fn non_empty_recipients_always_encrypt() {
    for n in 1..4 {
        let ids: Vec<Identity> = (0..n).map(|_| Identity::generate()).collect();
        let keys: Vec<PublicKey> = ids.iter().map(|i| i.to_public()).collect();
        let envelope = encrypt_bytes(&[], keys).unwrap();
        assert!(envelope.starts_with(b"age-encryption.org/v1"));
    }
}
