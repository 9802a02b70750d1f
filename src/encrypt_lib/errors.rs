use vstd::prelude::*;

verus! {

/// The kinds of failure that the library reports.
#[derive(Clone, Copy, Debug, PartialEq, Eq, Structural)]
pub enum ErrorKind {
    /// Key text that is not a well-formed key encoding.
    KeyFormat,
    /// A file or directory of the key store could not be read, written or created.
    Storage,
    /// No recipients, no matching recipient, a corrupt envelope or a cipher failure.
    Encryption,
    /// Neither an inline payload nor a file was supplied.
    Usage,
    /// Decrypted bytes that are not valid UTF-8 where text is required.
    Decoding,
}

/// The text that starts the details of an error of kind `k`.
pub open spec fn kind_prefix(k: ErrorKind) -> Seq<char> {
    match k {
        ErrorKind::KeyFormat => "Key Load Error: "@,
        ErrorKind::Storage => "File Error: "@,
        ErrorKind::Encryption => "Encryption Error: "@,
        ErrorKind::Usage => "Usage Error: "@,
        ErrorKind::Decoding => "Decoding Error: "@,
    }
}

/// `prefix` followed by `msg`, as an owned string.
pub(crate) fn prefixed(prefix: &str, msg: &str) -> (r: String)
    ensures
        r@ == prefix@ + msg@,
{
    let mut details = String::from_str(prefix);
    details.append(msg);
    details
}

/// An error of the key store, codec and cipher layer.
#[derive(Debug)]
pub struct EncryptLibError {
    pub kind: ErrorKind,
    pub details: String,
}

impl EncryptLibError {
    /// Whether this error is of kind `k` with message `msg`.
    pub open spec fn is(&self, k: ErrorKind, msg: Seq<char>) -> bool {
        self.kind == k && self.details@ == kind_prefix(k) + msg
    }

    pub fn new_encryption_error(msg: &str) -> (r: EncryptLibError)
        ensures
            r.is(ErrorKind::Encryption, msg@),
    {
        EncryptLibError { kind: ErrorKind::Encryption, details: prefixed("Encryption Error: ", msg) }
    }

    pub fn new_key_load_error(msg: &str) -> (r: EncryptLibError)
        ensures
            r.is(ErrorKind::KeyFormat, msg@),
    {
        EncryptLibError { kind: ErrorKind::KeyFormat, details: prefixed("Key Load Error: ", msg) }
    }

    pub fn new_file_error(msg: &str) -> (r: EncryptLibError)
        ensures
            r.is(ErrorKind::Storage, msg@),
    {
        EncryptLibError { kind: ErrorKind::Storage, details: prefixed("File Error: ", msg) }
    }

    /// The error's message, as it is shown to a user.
    pub fn to_string(&self) -> (r: String)
        ensures
            r@ == self.details@,
    {
        self.details.clone()
    }
}

} // verus!
