use encrypt_cli::commands::{
    add_contact_cmd, create_keypair_cmd, decrypt_message_cmd, encrypt_message_cmd, DecryptOutput,
};
use encrypt_cli::encrypt_lib::encryption::encrypt_bytes;
use encrypt_cli::encrypt_lib::errors::ErrorKind;
use encrypt_cli::encrypt_lib::file_management::{read_failure, StoreOp};
use encrypt_cli::encrypt_lib::identity::Identity;

fn write_of(op: &StoreOp) -> (String, String) {
    match op {
        StoreOp::WriteText { path, contents } => (path.clone(), contents.clone()),
        StoreOp::CreateDir { .. } => panic!("expected a write"),
    }
}

fn dir_of(op: &StoreOp) -> String {
    match op {
        StoreOp::CreateDir { path } => path.clone(),
        StoreOp::WriteText { .. } => panic!("expected a directory"),
    }
}

fn text_of(r: Result<DecryptOutput, encrypt_cli::errors::EncryptCLIError>) -> String {
    match r {
        Ok(DecryptOutput::Text(s)) => s,
        Ok(other) => panic!("{:?}", other),
        Err(e) => panic!("{}", e.to_string()),
    }
}

#[test]
fn keypair_contact_encrypt_decrypt_scenario() {
    let home = "/home/me";
    let mine = create_keypair_cmd(home, "key".to_string());
    assert_eq!(mine.ops.len(), 3);
    assert_eq!(dir_of(&mine.ops[0]), "/home/me/.config/encrypt-cli/keys");
    let (secret_path, my_secret) = write_of(&mine.ops[1]);
    assert_eq!(secret_path, "/home/me/.config/encrypt-cli/keys/key");
    let (public_path, my_public) = write_of(&mine.ops[2]);
    assert_eq!(public_path, "/home/me/.config/encrypt-cli/keys/key.pub");
    assert!(my_public.starts_with("age1"));
    assert_eq!(my_public, mine.public_key);

    let bob = create_keypair_cmd("/home/bob", "bob".to_string());
    let (_, bob_secret) = write_of(&bob.ops[1]);
    let ops = add_contact_cmd(home, "bob".to_string(), bob.public_key.clone());
    assert_eq!(ops.len(), 2);
    assert_eq!(dir_of(&ops[0]), "/home/me/.config/encrypt-cli/contacts");
    assert_eq!(
        write_of(&ops[1]),
        ("/home/me/.config/encrypt-cli/contacts/bob".to_string(), bob.public_key.clone())
    );

    let envelope = encrypt_message_cmd(
        Some("hello".to_string()),
        None,
        vec!["bob".to_string()],
        false,
        vec![Some(bob.public_key.clone())],
    )
    .unwrap();
    assert!(!envelope.is_empty());

    let e = decrypt_message_cmd(Some(envelope.clone()), None, Ok(my_secret), false).unwrap_err();
    assert_eq!(e.kind, ErrorKind::Encryption);
    assert_eq!(text_of(decrypt_message_cmd(Some(envelope), None, Ok(bob_secret), false)), "hello");
}

#[test]
fn encrypt_reads_file_input_when_no_message() {
    let id = Identity::generate();
    let public = id.to_public().as_str().to_string();
    let envelope = encrypt_message_cmd(None, Some(Ok(b"from a file".to_vec())), vec![public], true, Vec::new())
        .unwrap();
    let out = decrypt_message_cmd(None, Some(Ok(envelope)), Ok(id.expose_secret().to_string()), true);
    match out {
        Ok(DecryptOutput::ToFile(bytes)) => assert_eq!(bytes, b"from a file".to_vec()),
        other => panic!("{:?}", other),
    }
}

#[test]
fn message_wins_over_file_input() {
    let id = Identity::generate();
    let public = id.to_public().as_str().to_string();
    let envelope = encrypt_message_cmd(
        Some("inline".to_string()),
        Some(Err(read_failure())),
        vec![public],
        true,
        Vec::new(),
    )
    .unwrap();
    let secret = id.expose_secret().to_string();
    assert_eq!(text_of(decrypt_message_cmd(Some(envelope), Some(Err(read_failure())), Ok(secret), false)), "inline");
}

#[test]
fn missing_input_is_usage_error() {
    let id = Identity::generate();
    let e = encrypt_message_cmd(None, None, vec![id.to_public().as_str().to_string()], true, Vec::new())
        .unwrap_err();
    assert_eq!(e.kind, ErrorKind::Usage);
    assert_eq!(e.to_string(), "Usage Error: Need to include input message or path");
    let e = decrypt_message_cmd(None, None, Ok(id.expose_secret().to_string()), false).unwrap_err();
    assert_eq!(e.to_string(), "Usage Error: Need to include input message or path");
}

#[test]
fn unreadable_input_file_is_reported() {
    let id = Identity::generate();
    let e = encrypt_message_cmd(None, Some(Err(read_failure())), vec![], true, Vec::new()).unwrap_err();
    assert_eq!(e.kind, ErrorKind::Storage);
    assert_eq!(e.to_string(), "File Error: Failed to read file");
    let e = decrypt_message_cmd(None, Some(Err(read_failure())), Ok(id.expose_secret().to_string()), false)
        .unwrap_err();
    assert_eq!(e.to_string(), "File Error: Failed to read file");
}

#[test]
fn no_resolvable_recipient_fails_encryption() {
    let e = encrypt_message_cmd(
        Some("hi".to_string()),
        None,
        vec!["ghost".to_string(), "junk".to_string()],
        false,
        vec![None, Some("not a key".to_string())],
    )
    .unwrap_err();
    assert_eq!(e.kind, ErrorKind::Encryption);
    assert_eq!(e.to_string(), "Encryption Error: No recipients passed");
}

#[test]
fn decrypt_key_errors_come_first() {
    let e = decrypt_message_cmd(None, Some(Err(read_failure())), Err(read_failure()), false).unwrap_err();
    assert_eq!(e.to_string(), "File Error: Failed to read file");
    let e = decrypt_message_cmd(None, Some(Err(read_failure())), Ok("bad key".to_string()), false)
        .unwrap_err();
    assert_eq!(e.kind, ErrorKind::KeyFormat);
    assert!(e
        .to_string()
        .starts_with("Key Load Error: Failed to create Identity from private: "));
}

#[test]
fn non_text_plaintext_is_decoding_error() {
    let id = Identity::generate();
    let envelope = encrypt_bytes(&[0xff, 0xfe, 0x00], vec![id.to_public()]).unwrap();
    let secret = id.expose_secret().to_string();
    let e = decrypt_message_cmd(Some(envelope.clone()), None, Ok(secret.clone()), false).unwrap_err();
    assert_eq!(e.kind, ErrorKind::Decoding);
    assert_eq!(e.to_string(), "Decoding Error: Failed to convert output to string");
    match decrypt_message_cmd(Some(envelope), None, Ok(secret), true) {
        Ok(DecryptOutput::ToFile(bytes)) => assert_eq!(bytes, vec![0xff, 0xfe, 0x00]),
        other => panic!("{:?}", other),
    }
}

#[test]
fn multibyte_text_round_trip() {
    let id = Identity::generate();
    let public = id.to_public().as_str().to_string();
    let envelope = encrypt_message_cmd(Some("héllo ✓".to_string()), None, vec![public], true, Vec::new()).unwrap();
    assert_eq!(text_of(decrypt_message_cmd(Some(envelope), None, Ok(id.expose_secret().to_string()), false)), "héllo ✓");
}

#[test]
fn decrypting_plain_bytes_names_the_header_stage() {
    let id = Identity::generate();
    let e = decrypt_message_cmd(Some(b"hello".to_vec()), None, Ok(id.expose_secret().to_string()), false)
        .unwrap_err();
    assert_eq!(e.to_string(), "Encryption Error: Failed to create decrypter");
}
