//! The invoking identity, decoded from the user-database record of the
//! calling process.

use vstd::prelude::*;
use crate::text::{utf8_text, valid_utf8, decode_utf8};

verus! {

/// Who invoked the tool.
#[derive(Debug)]
pub struct Identity {
    pub username: String,
}

/// Why the invoking identity could not be determined.
#[derive(Clone, Copy, Debug, PartialEq, Eq, Structural)]
pub enum IdentityError {
    /// No user-database record exists for the calling process.
    NotFound,
    /// The record's user name is not valid UTF-8.
    EncodingError,
}

/// Turns the user-name bytes of the calling process's user-database record
/// (`None` where there is no record) into the invoking identity.
pub fn resolve_identity(record: Option<Vec<u8>>) -> (r: Result<Identity, IdentityError>)
    ensures
        record is None ==> r == Err::<Identity, IdentityError>(IdentityError::NotFound),
        record matches Some(b) ==> match r {
            Ok(id) => valid_utf8(b@) && id.username@ == decode_utf8(b@),
            Err(e) => !valid_utf8(b@) && e == IdentityError::EncodingError,
        },
{
    match record {
        None => Err(IdentityError::NotFound),
        Some(bytes) => match utf8_text(bytes) {
            Some(username) => Ok(Identity { username }),
            None => Err(IdentityError::EncodingError),
        },
    }
}

} // verus!
