use std::str::FromStr;

use age::secrecy::ExposeSecret;
use bech32::FromBase32;
use vstd::prelude::*;

use crate::encrypt_lib::errors::{kind_prefix, prefixed, EncryptLibError, ErrorKind};
use crate::encrypt_lib::file_management::{
    get_contact_path, get_identity_path, get_public_path, identity_path, public_path,
    contact_path, read_failure, write_str_to_file, writes, written, StoreOp,
};

verus! {

/// Whether age parses `s` as an X25519 identity (a secret key).
pub uninterp spec fn is_identity_text(s: Seq<char>) -> bool;

/// Whether age parses `s` as an X25519 recipient (a public key).
pub uninterp spec fn is_recipient_text(s: Seq<char>) -> bool;

/// The encoding of the public key that belongs to the secret key encoded as `secret`.
pub uninterp spec fn public_of(secret: Seq<char>) -> Seq<char>;

/// The encoding that age prints for the recipient that `s` encodes: one text per key.
pub uninterp spec fn canonical_key(s: Seq<char>) -> Seq<char>;

/// Whether the X25519 key that `s` encodes is not of small order, so that a
/// Diffie-Hellman exchange with it yields a non-zero shared secret.
pub uninterp spec fn is_contributory_key(s: Seq<char>) -> bool;

/// Whether age can encrypt to the recipient text `s`: it parses, and its key is not of
/// small order (for such a key age's `wrap_file_key` panics).
pub open spec fn is_usable_key(s: Seq<char>) -> bool {
    is_recipient_text(s) && is_contributory_key(s)
}

/// Relies on `age::x25519::Identity::from_str`: `Ok` exactly for a valid identity
/// encoding, and otherwise the parser's reason.
#[verifier::external_body]
fn parse_identity_text(s: &str) -> (r: Result<(), &'static str>)
    ensures
        r is Ok <==> is_identity_text(s@),
{
    match age::x25519::Identity::from_str(s) {
        Ok(_) => Ok(()),
        Err(reason) => Err(reason),
    }
}

/// Relies on `age::x25519::Recipient::from_str`: `true` exactly for a valid recipient
/// encoding.
#[verifier::external_body]
fn recipient_text_is_valid(s: &str) -> (r: bool)
    ensures
        r == is_recipient_text(s@),
{
    age::x25519::Recipient::from_str(s).is_ok()
}

/// Relies on `age::x25519::Recipient::from_str` and the recipient's `Display`: the
/// encoding that age prints for a valid recipient text, which parses back to the same
/// key and is printed unchanged.
#[verifier::external_body]
fn canonical_recipient_text(s: &str) -> (r: String)
    requires
        is_recipient_text(s@),
    ensures
        r@ == canonical_key(s@),
        is_recipient_text(r@),
        canonical_key(r@) == r@,
{
    age::x25519::Recipient::from_str(s).unwrap().to_string()
}

/// Relies on `bech32::decode` (the 32 key bytes, as age's `Recipient::from_str` reads
/// them) and x25519-dalek's `StaticSecret::diffie_hellman` and `was_contributory`: an
/// exchange with a fixed clamped scalar gives the all-zero secret exactly for keys of
/// small order, the keys for which age's `wrap_file_key` gets the all-zero secret.
#[verifier::external_body]
fn key_is_contributory(s: &str) -> (r: bool)
    requires
        is_recipient_text(s@),
    ensures
        r == is_contributory_key(s@),
{
    let (_, data, _) = bech32::decode(s).unwrap();
    let bytes: [u8; 32] = Vec::<u8>::from_base32(&data).unwrap().try_into().unwrap();
    let probe = x25519_dalek::StaticSecret::from([1u8; 32]);
    probe.diffie_hellman(&x25519_dalek::PublicKey::from(bytes)).was_contributory()
}

/// Relies on `age::x25519::Identity::to_public` and the recipient's `Display`: the
/// public key of a valid identity, in the encoding that age prints. That key is the base
/// point times a clamped scalar, a point of the prime-order subgroup other than the
/// identity, so it is not of small order.
#[verifier::external_body]
fn public_text_of(secret: &str) -> (r: String)
    requires
        is_identity_text(secret@),
    ensures
        r@ == public_of(secret@),
        is_recipient_text(r@),
        canonical_key(r@) == r@,
        is_contributory_key(r@),
{
    age::x25519::Identity::from_str(secret).unwrap().to_public().to_string()
}

/// Relies on `age::x25519::Identity::generate` and `Identity::to_string`: a fresh random
/// secret key, in the encoding that `Identity::from_str` reads.
#[verifier::external_body]
fn fresh_identity_text() -> (r: String)
    ensures
        is_identity_text(r@),
{
    age::x25519::Identity::generate().to_string().expose_secret().clone()
}

/// A private identity: the encoding of an X25519 secret key, always valid.
pub struct Identity {
    secret: String,
}

impl View for Identity {
    type V = Seq<char>;

    closed spec fn view(&self) -> Seq<char> {
        self.secret@
    }
}

impl Identity {
    #[verifier::type_invariant]
    spec fn inv(&self) -> bool {
        is_identity_text(self.secret@)
    }

    /// A freshly generated random identity.
    pub fn generate() -> (r: Identity)
        ensures
            is_identity_text(r@),
    {
        Identity { secret: fresh_identity_text() }
    }

    /// The encoded secret key. Callers hold it only as long as they need it.
    pub fn expose_secret(&self) -> (r: &str)
        ensures
            r@ == self@,
            is_identity_text(r@),
    {
        proof {
            use_type_invariant(self);
        }
        self.secret.as_str()
    }

    /// The encoding of this identity's public key.
    pub fn to_public(&self) -> (r: PublicKey)
        ensures
            r@ == public_of(self@),
    {
        proof {
            use_type_invariant(self);
        }
        PublicKey { text: public_text_of(self.secret.as_str()) }
    }
}

/// A recipient: the encoding that age prints for an X25519 public key that it can
/// encrypt to.
#[derive(Debug)]
pub struct PublicKey {
    text: String,
}

impl View for PublicKey {
    type V = Seq<char>;

    closed spec fn view(&self) -> Seq<char> {
        self.text@
    }
}

impl PublicKey {
    #[verifier::type_invariant]
    spec fn inv(&self) -> bool {
        is_usable_key(self.text@) && canonical_key(self.text@) == self.text@
    }

    /// The encoded public key.
    pub fn as_str(&self) -> (r: &str)
        ensures
            r@ == self@,
            is_usable_key(r@),
            canonical_key(r@) == r@,
    {
        proof {
            use_type_invariant(self);
        }
        self.text.as_str()
    }
}

/// Whether the recipient text `s` decodes to a key that age can encrypt to.
pub open spec fn decodes_to_usable_key(s: Seq<char>) -> bool {
    is_recipient_text(s) && is_contributory_key(canonical_key(s))
}

/// Decodes a public key, keeping age's encoding of it. A malformed key, or one of small
/// order, is a key format error.
pub fn get_recipient_from_str(pubkey_str: &str) -> (r: Result<PublicKey, EncryptLibError>)
    ensures
        decodes_to_usable_key(pubkey_str@) <==> r is Ok,
        r matches Ok(k) ==> k@ == canonical_key(pubkey_str@),
        r matches Err(e) ==> e.is(
            ErrorKind::KeyFormat,
            "Failed to create Recipient from Key"@,
        ),
{
    if recipient_text_is_valid(pubkey_str) {
        let text = canonical_recipient_text(pubkey_str);
        if key_is_contributory(text.as_str()) {
            return Ok(PublicKey { text });
        }
    }
    Err(EncryptLibError::new_key_load_error("Failed to create Recipient from Key"))
}

/// Whether an error of kind `kind` with `details` reports an identity text that age
/// could not parse, with the parser's reason.
pub open spec fn is_identity_error(kind: ErrorKind, details: Seq<char>) -> bool {
    kind == ErrorKind::KeyFormat && exists|reason: Seq<char>|
        details == kind_prefix(ErrorKind::KeyFormat) + ("Failed to create Identity from private: "@
            + reason)
}

/// Decodes a private identity; a malformed one is a key format error that carries age's
/// reason.
pub fn get_identity_from_str(privkey_str: &str) -> (r: Result<Identity, EncryptLibError>)
    ensures
        is_identity_text(privkey_str@) <==> r is Ok,
        r matches Ok(id) ==> id@ == privkey_str@,
        r matches Err(e) ==> is_identity_error(e.kind, e.details@),
{
    match parse_identity_text(privkey_str) {
        Ok(()) => Ok(Identity { secret: privkey_str.to_owned() }),
        Err(reason) => {
            let msg = prefixed("Failed to create Identity from private: ", reason);
            let e = EncryptLibError::new_key_load_error(msg.as_str());
            assert(e.details@ == kind_prefix(ErrorKind::KeyFormat) + (
            "Failed to create Identity from private: "@ + reason@));
            Err(e)
        },
    }
}

/// The encodings of a sequence of public keys.
pub open spec fn keys_view(keys: Seq<PublicKey>) -> Seq<Seq<char>> {
    keys.map_values(|k: PublicKey| k@)
}

/// The name an identity is stored under: the one given, else `key`.
pub open spec fn key_name(name: Option<String>) -> Seq<char> {
    match name {
        Some(n) => n@,
        None => "key"@,
    }
}

fn used_name(name: Option<String>) -> (r: String)
    ensures
        r@ == key_name(name),
{
    match name {
        Some(n) => n,
        None => "key".to_owned(),
    }
}

/// The operation that stores `key` as the contact `name`. The text is stored as given;
/// an existing contact of that name is replaced.
pub fn add_contact(home: &str, name: &str, key: &str) -> (r: StoreOp)
    ensures
        writes(r, contact_path(home@, name@), key@),
{
    let path = get_contact_path(home, name);
    write_str_to_file(key, path.as_str())
}

/// Decodes the identity read from the key store, or passes on the error of reading it.
pub fn load_identity(key_file: Result<String, EncryptLibError>) -> (r: Result<Identity, EncryptLibError>)
    ensures
        key_file matches Err(e) ==> (r matches Err(e2) && e2 == e),
        key_file matches Ok(t) ==> (is_identity_text(t@) <==> r is Ok),
        key_file matches Ok(t) ==> (r matches Ok(id) ==> id@ == t@),
        key_file matches Ok(t) ==> (r matches Err(e) ==> is_identity_error(e.kind, e.details@)),
{
    match key_file {
        Err(e) => Err(e),
        Ok(text) => get_identity_from_str(text.as_str()),
    }
}

fn save_private(identity: &Identity, home: &str, key_name: &str) -> (r: StoreOp)
    ensures
        writes(r, identity_path(home@, key_name@), identity@),
{
    let path = get_identity_path(home, key_name);
    write_str_to_file(identity.expose_secret(), path.as_str())
}

fn save_pubkey(identity: &Identity, home: &str, key_name: &str) -> (r: (String, StoreOp))
    ensures
        r.0@ == public_of(identity@),
        writes(r.1, public_path(home@, key_name@), public_of(identity@)),
{
    let public_key = identity.to_public();
    let path = get_public_path(home, key_name);
    let op = write_str_to_file(public_key.as_str(), path.as_str());
    (public_key.as_str().to_owned(), op)
}

/// A freshly generated keypair: its public key, and the writes that store it.
pub struct NewKeypair {
    pub public_key: String,
    pub ops: Vec<StoreOp>,
}

/// Whether `ops` store a valid identity as `name` and then its public key as
/// `name.pub`, and `public_key` is that public key.
pub open spec fn stores_keypair(
    public_key: Seq<char>,
    ops: Seq<StoreOp>,
    home: Seq<char>,
    name: Seq<char>,
) -> bool {
    &&& ops.len() == 2
    &&& is_identity_text(written(ops[0]))
    &&& writes(ops[0], identity_path(home, name), written(ops[0]))
    &&& writes(ops[1], public_path(home, name), public_of(written(ops[0])))
    &&& public_key == public_of(written(ops[0]))
}

/// Generates a keypair to be stored under `pair_name` (by default `key`).
pub fn create_keypair(home: &str, pair_name: Option<String>) -> (r: NewKeypair)
    ensures
        stores_keypair(r.public_key@, r.ops@, home@, key_name(pair_name)),
{
    let identity = Identity::generate();
    let name = used_name(pair_name);
    let private_op = save_private(&identity, home, name.as_str());
    let (public_key, public_op) = save_pubkey(&identity, home, name.as_str());
    let mut ops: Vec<StoreOp> = Vec::new();
    ops.push(private_op);
    ops.push(public_op);
    NewKeypair { public_key, ops }
}

/// Decodes the public key of a contact, or reports that it could not be loaded.
pub fn name_to_recipient(contact_text: &Option<String>) -> (r: Result<PublicKey, EncryptLibError>)
    ensures
        match contact_text {
            Some(t) => (decodes_to_usable_key(t@) <==> r is Ok) && (r matches Ok(k) ==> k@
                == canonical_key(t@)),
            None => r matches Err(e) && e.is(ErrorKind::Storage, "Failed to read file"@),
        },
{
    match contact_text {
        Some(t) => get_recipient_from_str(t.as_str()),
        None => Err(read_failure()),
    }
}

/// The key text that the `i`-th addressing token stands for: the token itself in raw
/// mode, else the text loaded for that contact, if any.
pub open spec fn token_source(
    tokens: Seq<String>,
    raw_pubkey_mode: bool,
    contacts: Seq<Option<String>>,
    i: int,
) -> Option<Seq<char>> {
    if raw_pubkey_mode {
        Some(tokens[i]@)
    } else if i < contacts.len() {
        match contacts[i] {
            Some(t) => Some(t@),
            None => None,
        }
    } else {
        None
    }
}

/// The key texts of all tokens, in order.
pub open spec fn token_sources(
    tokens: Seq<String>,
    raw_pubkey_mode: bool,
    contacts: Seq<Option<String>>,
) -> Seq<Option<Seq<char>>> {
    Seq::new(tokens.len(), |i: int| token_source(tokens, raw_pubkey_mode, contacts, i))
}

/// The keys, in age's encoding, of the key texts that decode to keys age can encrypt
/// to, in their order, dropping the others.
pub open spec fn resolved(sources: Seq<Option<Seq<char>>>) -> Seq<Seq<char>>
    decreases sources.len(),
{
    if sources.len() == 0 {
        Seq::empty()
    } else {
        let rest = resolved(sources.drop_last());
        match sources.last() {
            Some(t) => if decodes_to_usable_key(t) {
                rest.push(canonical_key(t))
            } else {
                rest
            },
            None => rest,
        }
    }
}

/// Builds the recipients of a message from addressing tokens. In raw mode each token is
/// a public key; otherwise `contacts[i]` holds the text loaded for the contact named by
/// the `i`-th token (`None` where it could not be loaded). Tokens that do not resolve
/// are dropped; the others keep their order.
pub fn resolve_recipients(
    tokens: &Vec<String>,
    raw_pubkey_mode: bool,
    contacts: &Vec<Option<String>>,
) -> (r: Vec<PublicKey>)
    ensures
        keys_view(r@) == resolved(token_sources(tokens@, raw_pubkey_mode, contacts@)),
{
    let ghost sources = token_sources(tokens@, raw_pubkey_mode, contacts@);
    let mut keys: Vec<PublicKey> = Vec::new();
    let mut i: usize = 0;
    while i < tokens.len()
        invariant
            i <= tokens.len(),
            sources == token_sources(tokens@, raw_pubkey_mode, contacts@),
            keys_view(keys@) == resolved(sources.take(i as int)),
        decreases tokens.len() - i,
    {
        let decoded = if raw_pubkey_mode {
            get_recipient_from_str(tokens[i].as_str())
        } else if i < contacts.len() {
            name_to_recipient(&contacts[i])
        } else {
            Err(read_failure())
        };
        let ghost before = keys@;
        match decoded {
            Ok(k) => keys.push(k),
            Err(_) => {},
        }
        proof {
            assert(sources.take(i + 1).drop_last() =~= sources.take(i as int));
            assert(sources.take(i + 1).last() == sources[i as int]);
            if decoded is Ok {
                assert(keys_view(keys@) =~= keys_view(before).push(keys@.last()@));
            }
        }
        i = i + 1;
    }
    assert(sources.take(tokens.len() as int) =~= sources);
    keys
}

} // verus!
