use vstd::prelude::*;
use vstd::string::StrSliceExecFns;

use crate::encrypt_lib::errors::{prefixed, EncryptLibError, ErrorKind};

verus! {

/// `name` as an entry of directory `dir`: a separator is put between them unless `dir`
/// is empty (the current directory) or already ends with one.
pub open spec fn join(dir: Seq<char>, name: Seq<char>) -> Seq<char> {
    if dir.len() == 0 {
        name
    } else if dir.last() == '/' {
        dir + name
    } else {
        dir + "/"@ + name
    }
}

/// The configuration root under a home directory.
pub open spec fn config_dir(home: Seq<char>) -> Seq<char> {
    join(join(home, ".config"@), "encrypt-cli"@)
}

/// The namespace of private identities and their public keys.
pub open spec fn keys_dir(home: Seq<char>) -> Seq<char> {
    join(config_dir(home), "keys"@)
}

/// The namespace of contacts.
pub open spec fn contacts_dir(home: Seq<char>) -> Seq<char> {
    join(config_dir(home), "contacts"@)
}

/// Where the identity `name` is stored.
pub open spec fn identity_path(home: Seq<char>, name: Seq<char>) -> Seq<char> {
    join(keys_dir(home), name)
}

/// Where the public key of identity `name` is stored.
pub open spec fn public_path(home: Seq<char>, name: Seq<char>) -> Seq<char> {
    join(keys_dir(home), name + ".pub"@)
}

/// Where the contact `name` is stored.
pub open spec fn contact_path(home: Seq<char>, name: Seq<char>) -> Seq<char> {
    join(contacts_dir(home), name)
}

/// An operation on the key store, for the caller to perform in order.
pub enum StoreOp {
    /// Create the directory and its parents, succeeding if it exists.
    CreateDir { path: String },
    /// Write the text as the whole contents of the file, replacing any earlier contents.
    WriteText { path: String, contents: String },
}

/// Whether `op` creates the directory `path`.
pub open spec fn creates(op: StoreOp, path: Seq<char>) -> bool {
    match op {
        StoreOp::CreateDir { path: p } => p@ == path,
        _ => false,
    }
}

/// Whether `op` writes `contents` to the file `path`.
pub open spec fn writes(op: StoreOp, path: Seq<char>, contents: Seq<char>) -> bool {
    match op {
        StoreOp::WriteText { path: p, contents: c } => p@ == path && c@ == contents,
        _ => false,
    }
}

/// The text that `op` writes, if it writes one.
pub open spec fn written(op: StoreOp) -> Seq<char> {
    match op {
        StoreOp::WriteText { contents, .. } => contents@,
        _ => Seq::empty(),
    }
}

impl StoreOp {
    /// The error to report when the caller could not perform this operation.
    pub fn failure(&self) -> (r: EncryptLibError)
        ensures
            self is CreateDir ==> r.is(ErrorKind::Storage, "Failed to create dir"@),
            self is WriteText ==> r.is(ErrorKind::Storage, "Failed to write to file"@),
    {
        match self {
            StoreOp::CreateDir { .. } => EncryptLibError::new_file_error("Failed to create dir"),
            StoreOp::WriteText { .. } => write_failure(),
        }
    }
}

/// The error to report when the caller could not read a file of the key store or an
/// input file.
pub fn read_failure() -> (r: EncryptLibError)
    ensures
        r.is(ErrorKind::Storage, "Failed to read file"@),
{
    EncryptLibError::new_file_error("Failed to read file")
}

/// The error to report when the caller could not write a file.
pub fn write_failure() -> (r: EncryptLibError)
    ensures
        r.is(ErrorKind::Storage, "Failed to write to file"@),
{
    EncryptLibError::new_file_error("Failed to write to file")
}

fn join_path(dir: &str, name: &str) -> (r: String)
    ensures
        r@ == join(dir@, name@),
{
    let n = dir.unicode_len();
    if n == 0 {
        name.to_owned()
    } else if dir.get_char(n - 1) == '/' {
        prefixed(dir, name)
    } else {
        let mut path = prefixed(dir, "/");
        path.append(name);
        path
    }
}

pub fn get_config_dir(home: &str) -> (r: String)
    ensures
        r@ == config_dir(home@),
{
    let config = join_path(home, ".config");
    join_path(config.as_str(), "encrypt-cli")
}

pub fn get_keys_dir(home: &str) -> (r: String)
    ensures
        r@ == keys_dir(home@),
{
    let config = get_config_dir(home);
    join_path(config.as_str(), "keys")
}

pub fn get_contnacts_dir(home: &str) -> (r: String)
    ensures
        r@ == contacts_dir(home@),
{
    let config = get_config_dir(home);
    join_path(config.as_str(), "contacts")
}

pub fn get_identity_path(home: &str, name: &str) -> (r: String)
    ensures
        r@ == identity_path(home@, name@),
{
    let keys = get_keys_dir(home);
    join_path(keys.as_str(), name)
}

pub fn get_public_path(home: &str, name: &str) -> (r: String)
    ensures
        r@ == public_path(home@, name@),
{
    let keys = get_keys_dir(home);
    let file = prefixed(name, ".pub");
    join_path(keys.as_str(), file.as_str())
}

pub fn get_contact_path(home: &str, name: &str) -> (r: String)
    ensures
        r@ == contact_path(home@, name@),
{
    let contacts = get_contnacts_dir(home);
    join_path(contacts.as_str(), name)
}

/// The operation that writes `msg` to `file_path`.
pub fn write_str_to_file(msg: &str, file_path: &str) -> (r: StoreOp)
    ensures
        writes(r, file_path@, msg@),
{
    StoreOp::WriteText { path: file_path.to_owned(), contents: msg.to_owned() }
}

/// The operation that ensures the keys namespace exists.
pub fn create_keys_dir(home: &str) -> (r: StoreOp)
    ensures
        creates(r, keys_dir(home@)),
{
    StoreOp::CreateDir { path: get_keys_dir(home) }
}

/// The operation that ensures the contacts namespace exists.
pub fn create_contacts_dir(home: &str) -> (r: StoreOp)
    ensures
        creates(r, contacts_dir(home@)),
{
    StoreOp::CreateDir { path: get_contnacts_dir(home) }
}

} // verus!
