use vstd::prelude::*;
use vstd::utf8::{decode_utf8, encode_utf8, valid_utf8};

use crate::encrypt_lib::encryption::{
    decrypt_bytes, encrypt_bytes, open_failure_message, opened, sealed_for, OpenFailure,
};
use crate::encrypt_lib::errors::{EncryptLibError, ErrorKind};
use crate::encrypt_lib::file_management::{
    contact_path, contacts_dir, create_contacts_dir, create_keys_dir, creates, keys_dir, writes,
    StoreOp,
};
use crate::encrypt_lib::identity::{
    add_contact, create_keypair, is_identity_error, is_identity_text, keys_view, load_identity, resolve_recipients,
    resolved, stores_keypair, token_sources, Identity, NewKeypair, PublicKey,
};
use crate::errors::EncryptCLIError;

verus! {

/// The error of `String::from_utf8`, carried as an opaque value.
#[verifier::external_type_specification]
#[verifier::external_body]
pub struct ExFromUtf8Error(std::string::FromUtf8Error);

/// Relies on `String::from_utf8`: `Ok` exactly when the bytes are valid UTF-8, holding
/// the text they encode.
#[verifier::external_body]
fn utf8_text(bytes: Vec<u8>) -> (r: Result<String, std::string::FromUtf8Error>)
    ensures
        r is Ok <==> valid_utf8(bytes@),
        r matches Ok(s) ==> s@ == decode_utf8(bytes@),
{
    String::from_utf8(bytes)
}

fn report(e: EncryptLibError) -> (r: EncryptCLIError)
    ensures
        r.reports(e),
{
    EncryptCLIError::from(e)
}

/// Creates a keypair named `name`: the keys namespace is ensured, then the identity and
/// its public key are written. Returns the public key and those operations.
pub fn create_keypair_cmd(home: &str, name: String) -> (r: NewKeypair)
    ensures
        r.ops@.len() == 3,
        creates(r.ops@[0], keys_dir(home@)),
        stores_keypair(r.public_key@, r.ops@.drop_first(), home@, name@),
{
    let keypair = create_keypair(home, Some(name));
    let mut ops = keypair.ops;
    let ghost stored = ops@;
    ops.insert(0, create_keys_dir(home));
    assert(ops@.drop_first() =~= stored);
    NewKeypair { public_key: keypair.public_key, ops }
}

/// Adds the contact `name` with the public key text `pubkey`: the contacts namespace is
/// ensured, then the text is written as given.
pub fn add_contact_cmd(home: &str, name: String, pubkey: String) -> (r: Vec<StoreOp>)
    ensures
        r@.len() == 2,
        creates(r@[0], contacts_dir(home@)),
        writes(r@[1], contact_path(home@, name@), pubkey@),
{
    let mut ops: Vec<StoreOp> = Vec::new();
    ops.push(create_contacts_dir(home));
    ops.push(add_contact(home, name.as_str(), pubkey.as_str()));
    ops
}

/// The payload to encrypt: the message's UTF-8 bytes, else the bytes read from the file.
pub open spec fn chosen_payload(
    message: Option<String>,
    file_input: Option<Result<Vec<u8>, EncryptLibError>>,
) -> Option<Seq<u8>> {
    match message {
        Some(m) => Some(encode_utf8(m@)),
        None => match file_input {
            Some(Ok(b)) => Some(b@),
            _ => None,
        },
    }
}

/// The envelope to decrypt: the bytes given inline, else the bytes read from the file.
pub open spec fn chosen_envelope(
    encrypted_message: Option<Vec<u8>>,
    file_input: Option<Result<Vec<u8>, EncryptLibError>>,
) -> Option<Seq<u8>> {
    match encrypted_message {
        Some(b) => Some(b@),
        None => match file_input {
            Some(Ok(b)) => Some(b@),
            _ => None,
        },
    }
}

/// What `r` must be when neither an inline input nor a readable file was given.
pub open spec fn input_missing<T>(
    r: Result<T, EncryptCLIError>,
    file_input: Option<Result<Vec<u8>, EncryptLibError>>,
) -> bool {
    match file_input {
        Some(Err(e)) => r matches Err(c) && c.reports(e),
        _ => r matches Err(c) && c.is(ErrorKind::Usage, "Need to include input message or path"@),
    }
}

/// Whether `r` is a correct outcome of encrypting `payload` for `keys`.
pub open spec fn encrypted_as(
    r: Result<Vec<u8>, EncryptCLIError>,
    payload: Seq<u8>,
    keys: Seq<Seq<char>>,
) -> bool {
    &&& keys.len() == 0 ==> (r matches Err(e) && e.is(ErrorKind::Encryption, "No recipients passed"@))
    &&& keys.len() > 0 ==> (r matches Ok(envelope) && envelope@.len() > 0 && sealed_for(
        envelope@,
        payload,
        keys,
    ))
}

fn handle_encryption(
    message: Option<String>,
    file_input: Option<Result<Vec<u8>, EncryptLibError>>,
    recipients: Vec<PublicKey>,
) -> (r: Result<Vec<u8>, EncryptCLIError>)
    ensures
        match chosen_payload(message, file_input) {
            Some(p) => encrypted_as(r, p, keys_view(recipients@)),
            None => input_missing(r, file_input),
        },
{
    let outcome = match message {
        Some(m) => encrypt_bytes(m.as_str().as_bytes(), recipients),
        None => match file_input {
            Some(Ok(bytes)) => encrypt_bytes(bytes.as_slice(), recipients),
            Some(Err(e)) => return Err(report(e)),
            None => return Err(EncryptCLIError::new_usage_error("Need to include input message or path")),
        },
    };
    match outcome {
        Ok(envelope) => Ok(envelope),
        Err(e) => Err(report(e)),
    }
}

/// Encrypts a message for the recipients that the tokens resolve to (see
/// `resolve_recipients`). The payload is `message`, else the bytes read from the input
/// file (`file_input`, with the error of reading it).
pub fn encrypt_message_cmd(
    message: Option<String>,
    file_input: Option<Result<Vec<u8>, EncryptLibError>>,
    recipients: Vec<String>,
    pubkeys_passed: bool,
    contacts: Vec<Option<String>>,
) -> (r: Result<Vec<u8>, EncryptCLIError>)
    ensures
        match chosen_payload(message, file_input) {
            Some(p) => encrypted_as(r, p, resolved(token_sources(recipients@, pubkeys_passed, contacts@))),
            None => input_missing(r, file_input),
        },
{
    let keys = resolve_recipients(&recipients, pubkeys_passed, &contacts);
    handle_encryption(message, file_input, keys)
}

/// What a decryption command hands back: the plaintext bytes to write to the output
/// file, or the plaintext as text.
#[derive(Debug)]
pub enum DecryptOutput {
    ToFile(Vec<u8>),
    Text(String),
}

/// Whether `r` is a correct outcome of a decryption that gave `plaintext` (or failed
/// at a stage), for the output file or as text.
pub open spec fn decrypted_as(
    r: Result<DecryptOutput, EncryptCLIError>,
    plaintext: Result<Seq<u8>, OpenFailure>,
    to_outfile: bool,
) -> bool {
    match plaintext {
        Err(stage) => r matches Err(e) && e.is(ErrorKind::Encryption, open_failure_message(stage)),
        Ok(p) => if to_outfile {
            r matches Ok(DecryptOutput::ToFile(v)) && v@ == p
        } else if valid_utf8(p) {
            r matches Ok(DecryptOutput::Text(s)) && s@ == decode_utf8(p)
        } else {
            r matches Err(e) && e.is(ErrorKind::Decoding, "Failed to convert output to string"@)
        },
    }
}

fn handle_decryption(
    encrypted_message: Option<Vec<u8>>,
    file_input: Option<Result<Vec<u8>, EncryptLibError>>,
    id: &Identity,
) -> (r: Result<Vec<u8>, EncryptCLIError>)
    ensures
        match chosen_envelope(encrypted_message, file_input) {
            Some(b) => match opened(b, id@) {
                Ok(p) => r matches Ok(v) && v@ == p,
                Err(stage) => r matches Err(e) && e.is(
                    ErrorKind::Encryption,
                    open_failure_message(stage),
                ),
            },
            None => input_missing(r, file_input),
        },
{
    let outcome = match encrypted_message {
        Some(bytes) => decrypt_bytes(bytes, id),
        None => match file_input {
            Some(Ok(bytes)) => decrypt_bytes(bytes, id),
            Some(Err(e)) => return Err(report(e)),
            None => return Err(EncryptCLIError::new_usage_error("Need to include input message or path")),
        },
    };
    match outcome {
        Ok(plaintext) => Ok(plaintext),
        Err(e) => Err(report(e)),
    }
}

/// Decrypts a message with the identity read from the key store (`key_file`, with the
/// error of reading it). The envelope is `encrypted_message`, else the bytes read from
/// the input file. The plaintext is handed back for the output file, or as text.
pub fn decrypt_message_cmd(
    encrypted_message: Option<Vec<u8>>,
    file_input: Option<Result<Vec<u8>, EncryptLibError>>,
    key_file: Result<String, EncryptLibError>,
    to_outfile: bool,
) -> (r: Result<DecryptOutput, EncryptCLIError>)
    ensures
        match key_file {
            Err(e) => r matches Err(c) && c.reports(e),
            Ok(t) => if !is_identity_text(t@) {
                r matches Err(c) && is_identity_error(c.kind, c.details@)
            } else {
                match chosen_envelope(encrypted_message, file_input) {
                    Some(b) => decrypted_as(r, opened(b, t@), to_outfile),
                    None => input_missing(r, file_input),
                }
            },
        },
{
    let id = match load_identity(key_file) {
        Ok(id) => id,
        Err(e) => return Err(report(e)),
    };
    let plaintext = match handle_decryption(encrypted_message, file_input, &id) {
        Ok(p) => p,
        Err(e) => return Err(e),
    };
    if to_outfile {
        Ok(DecryptOutput::ToFile(plaintext))
    } else {
        match utf8_text(plaintext) {
            Ok(text) => Ok(DecryptOutput::Text(text)),
            Err(_) => Err(EncryptCLIError::new_decoding_error("Failed to convert output to string")),
        }
    }
}

} // verus!
