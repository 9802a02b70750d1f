use vstd::prelude::*;

use crate::encrypt_lib::errors::{kind_prefix, prefixed, EncryptLibError, ErrorKind};

verus! {

/// An error of a command, as reported to the user.
#[derive(Debug)]
pub struct EncryptCLIError {
    pub kind: ErrorKind,
    pub details: String,
}

impl EncryptCLIError {
    /// Whether this error is of kind `k` with message `msg`.
    pub open spec fn is(&self, k: ErrorKind, msg: Seq<char>) -> bool {
        self.kind == k && self.details@ == kind_prefix(k) + msg
    }

    /// Whether this error reports `e` unchanged.
    pub open spec fn reports(&self, e: EncryptLibError) -> bool {
        self.kind == e.kind && self.details@ == e.details@
    }

    pub fn new_usage_error(msg: &str) -> (r: EncryptCLIError)
        ensures
            r.is(ErrorKind::Usage, msg@),
    {
        EncryptCLIError { kind: ErrorKind::Usage, details: prefixed("Usage Error: ", msg) }
    }

    pub fn new_decoding_error(msg: &str) -> (r: EncryptCLIError)
        ensures
            r.is(ErrorKind::Decoding, msg@),
    {
        EncryptCLIError { kind: ErrorKind::Decoding, details: prefixed("Decoding Error: ", msg) }
    }

    /// The error's message, as it is shown to a user.
    pub fn to_string(&self) -> (r: String)
        ensures
            r@ == self.details@,
    {
        self.details.clone()
    }
}

impl From<EncryptLibError> for EncryptCLIError {
    fn from(value: EncryptLibError) -> Self {
        EncryptCLIError { kind: value.kind, details: value.details }
    }
}

impl vstd::std_specs::convert::FromSpecImpl<EncryptLibError> for EncryptCLIError {
    open spec fn obeys_from_spec() -> bool {
        true
    }

    open spec fn from_spec(v: EncryptLibError) -> Self {
        EncryptCLIError { kind: v.kind, details: v.details }
    }
}

} // verus!
