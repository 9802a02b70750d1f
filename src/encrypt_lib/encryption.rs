use std::io::{Read, Write};
use std::str::FromStr;

use vstd::prelude::*;

use crate::encrypt_lib::errors::{EncryptLibError, ErrorKind};
use crate::encrypt_lib::identity::{
    is_identity_text, is_usable_key, keys_view, public_of, Identity, PublicKey,
};

verus! {

/// The stage at which age failed to open an envelope.
#[derive(Debug, PartialEq, Eq, Structural)]
pub enum OpenFailure {
    /// The header is not that of an age file encrypted to recipients.
    Header,
    /// No recipient stanza opens with the identity.
    NoMatch,
    /// The payload fails to authenticate or is truncated.
    Payload,
}

/// What decrypting the age file `envelope` with the identity encoded as `secret` yields:
/// the authenticated plaintext, or the stage at which decryption failed.
pub uninterp spec fn opened(envelope: Seq<u8>, secret: Seq<char>) -> Result<Seq<u8>, OpenFailure>;

/// Whether every identity whose public key is one of `recipients` opens `envelope` to
/// exactly `payload`.
pub open spec fn sealed_for(envelope: Seq<u8>, payload: Seq<u8>, recipients: Seq<Seq<char>>) -> bool {
    forall|secret: Seq<char>|
        is_identity_text(secret) && recipients.contains(public_of(secret)) ==> #[trigger] opened(
            envelope,
            secret,
        ) == Ok::<Seq<u8>, OpenFailure>(payload)
}

/// The stage at which age failed to produce an envelope.
pub enum SealFailure {
    Writer,
    Write,
    Finish,
}

/// Whether age can encrypt to every key of `keys`.
pub open spec fn all_usable(keys: Seq<PublicKey>) -> bool {
    forall|i: int| 0 <= i < keys.len() ==> is_usable_key(#[trigger] keys[i]@)
}

fn note_keys_usable(keys: &Vec<PublicKey>)
    ensures
        all_usable(keys@),
{
    let mut i: usize = 0;
    while i < keys.len()
        invariant
            i <= keys.len(),
            forall|j: int| 0 <= j < i ==> is_usable_key(#[trigger] keys@[j]@),
        decreases keys.len() - i,
    {
        let _ = keys[i].as_str();
        i = i + 1;
    }
}

/// Relies on `age::Encryptor::with_recipients`, `wrap_output`, and the stream writer's
/// `write_all` and `finish`: an age file encrypted to every recipient, which the identity
/// of each recipient decrypts to the plaintext (age documents of `x25519::Recipient`
/// that files encrypted to it can be decrypted with the corresponding identity).
/// `with_recipients` is `Some` for a non-empty list, and each key parses. Wrapping the
/// file key for an X25519 key only returns `Ok`, and panics only for a key of small
/// order, which `requires` leaves out. Writing into a `Vec` does not fail, so neither do
/// `wrap_output`, `write_all` or `finish`, and the header is always written.
#[verifier::external_body]
fn seal(plaintext: &[u8], recipients: &Vec<PublicKey>) -> (r: Result<Vec<u8>, SealFailure>)
    requires
        recipients@.len() > 0,
        all_usable(recipients@),
    ensures
        r is Ok,
        r matches Ok(envelope) ==> envelope@.len() > 0 && sealed_for(
            envelope@,
            plaintext@,
            keys_view(recipients@),
        ),
{
    let mut keys: Vec<Box<dyn age::Recipient + Send>> = Vec::new();
    for key in recipients.iter() {
        keys.push(Box::new(age::x25519::Recipient::from_str(key.as_str()).unwrap()));
    }
    let mut envelope = Vec::new();
    let Ok(mut writer) = age::Encryptor::with_recipients(keys).unwrap().wrap_output(&mut envelope) else {
        return Err(SealFailure::Writer);
    };
    if writer.write_all(plaintext).is_err() {
        return Err(SealFailure::Write);
    }
    if writer.finish().is_err() {
        return Err(SealFailure::Finish);
    }
    Ok(envelope)
}

/// Relies on `age::Decryptor::new`, `RecipientsDecryptor::decrypt` and the stream
/// reader's `read_to_end`: the authenticated plaintext of the envelope, or the stage
/// that failed, as named by `opened`.
#[verifier::external_body]
fn open_envelope(envelope: &[u8], secret: &str) -> (r: Result<Vec<u8>, OpenFailure>)
    requires
        is_identity_text(secret@),
    ensures
        match opened(envelope@, secret@) {
            Ok(p) => r matches Ok(v) && v@ == p,
            Err(stage) => r == Err::<Vec<u8>, OpenFailure>(stage),
        },
{
    let identity = age::x25519::Identity::from_str(secret).unwrap();
    let Ok(age::Decryptor::Recipients(decryptor)) = age::Decryptor::new(envelope) else {
        return Err(OpenFailure::Header);
    };
    let Ok(mut reader) = decryptor.decrypt(std::iter::once(&identity as &dyn age::Identity)) else {
        return Err(OpenFailure::NoMatch);
    };
    let mut plaintext = Vec::new();
    match reader.read_to_end(&mut plaintext) {
        Ok(_) => Ok(plaintext),
        Err(_) => Err(OpenFailure::Payload),
    }
}

/// Encrypts `message_bytes` so that each recipient's identity can decrypt it. An empty
/// recipient list is refused before any cipher work.
pub fn encrypt_bytes(message_bytes: &[u8], recipients: Vec<PublicKey>) -> (r: Result<
    Vec<u8>,
    EncryptLibError,
>)
    ensures
        recipients@.len() == 0 ==> (r matches Err(e) && e.is(
            ErrorKind::Encryption,
            "No recipients passed"@,
        )),
        recipients@.len() > 0 ==> (r matches Ok(envelope) && envelope@.len() > 0 && sealed_for(
            envelope@,
            message_bytes@,
            keys_view(recipients@),
        )),
{
    if recipients.len() == 0 {
        return Err(EncryptLibError::new_encryption_error("No recipients passed"));
    }
    note_keys_usable(&recipients);
    match seal(message_bytes, &recipients) {
        Ok(envelope) => Ok(envelope),
        Err(SealFailure::Writer) => Err(EncryptLibError::new_encryption_error("Failed to create writer")),
        Err(SealFailure::Write) => Err(EncryptLibError::new_encryption_error("Failed to write to writer")),
        Err(SealFailure::Finish) => Err(EncryptLibError::new_encryption_error("Failed to finish writer")),
    }
}

/// The message of the encryption error for a failed decryption stage.
pub open spec fn open_failure_message(stage: OpenFailure) -> Seq<char> {
    match stage {
        OpenFailure::Header => "Failed to create decrypter"@,
        OpenFailure::NoMatch => "Failed to create reader"@,
        OpenFailure::Payload => "Failed to read plaintext"@,
    }
}

/// Decrypts an envelope with one identity. Only authenticated plaintext is returned;
/// every failure is an encryption error that names the stage.
pub fn decrypt_bytes(encrypted: Vec<u8>, identity: &Identity) -> (r: Result<Vec<u8>, EncryptLibError>)
    ensures
        match opened(encrypted@, identity@) {
            Ok(p) => r matches Ok(v) && v@ == p,
            Err(stage) => r matches Err(e) && e.is(ErrorKind::Encryption, open_failure_message(stage)),
        },
{
    match open_envelope(encrypted.as_slice(), identity.expose_secret()) {
        Ok(plaintext) => Ok(plaintext),
        Err(OpenFailure::Header) => Err(EncryptLibError::new_encryption_error("Failed to create decrypter")),
        Err(OpenFailure::NoMatch) => Err(EncryptLibError::new_encryption_error("Failed to create reader")),
        Err(OpenFailure::Payload) => Err(EncryptLibError::new_encryption_error("Failed to read plaintext")),
    }
}

/// Round trip: an envelope that `encrypt_bytes` made for an identity's public key
/// alone decrypts with that identity to the same payload.
pub proof fn lemma_round_trip(envelope: Seq<u8>, payload: Seq<u8>, identity: Identity)
    requires
        sealed_for(envelope, payload, seq![public_of(identity@)]),
        is_identity_text(identity@),
    ensures
        opened(envelope, identity@) == Ok::<Seq<u8>, OpenFailure>(payload),
{
    assert(seq![public_of(identity@)][0] == public_of(identity@));
}

/// Multiple recipients: an envelope that `encrypt_bytes` made for several public keys
/// decrypts, with each identity whose public key is among them, to the same payload.
pub proof fn lemma_every_recipient_opens(
    envelope: Seq<u8>,
    payload: Seq<u8>,
    recipients: Seq<Seq<char>>,
    identities: Seq<Identity>,
)
    requires
        sealed_for(envelope, payload, recipients),
        forall|j: int|
            0 <= j < identities.len() ==> is_identity_text(#[trigger] identities[j]@)
                && recipients.contains(public_of(identities[j]@)),
    ensures
        forall|j: int|
            0 <= j < identities.len() ==> opened(envelope, #[trigger] identities[j]@) == Ok::<
                Seq<u8>,
                OpenFailure,
            >(payload),
{
}

} // verus!
