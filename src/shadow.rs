//! The shadow backend: the password field of the user database, the hash of
//! the shadow database, and crypt-style verification of a password.

use vstd::prelude::*;
use crate::text::{utf8_text, valid_utf8, decode_utf8};

verus! {

/// Why no hash could be found to verify against.
#[derive(Clone, Copy, Debug, PartialEq, Eq, Structural)]
pub enum ShadowError {
    /// The database holds no entry for the user.
    RecordNotFound,
    /// The entry holds bytes that are not valid UTF-8.
    EncodingError,
    /// The password field is neither the shadowed marker nor a disabled one.
    UnsupportedFormat,
}

/// Where the user's password hash is to be found.
#[derive(Debug)]
pub enum HashLocation {
    /// In the shadow database: a second lookup is needed.
    ShadowDatabase,
    /// The password field itself, which marks a disabled account.
    Field(String),
}

impl HashLocation {
    /// Whether the caller has to look the user up in the shadow database.
    pub fn needs_shadow_lookup(&self) -> (r: bool)
        ensures
            r == (self is ShadowDatabase),
    {
        match self {
            HashLocation::ShadowDatabase => true,
            HashLocation::Field(_) => false,
        }
    }
}

/// The password field that defers to the shadow database.
pub open spec fn is_shadowed_marker(s: Seq<char>) -> bool {
    s.len() == 1 && s[0] == 'x'
}

/// A user-database password field that marks a disabled account.
pub open spec fn is_disabled_field(s: Seq<char>) -> bool {
    s.len() > 0 && s[0] == '*'
}

/// A stored hash that marks a disabled or locked account.
pub open spec fn is_disabled_marker(s: Seq<char>) -> bool {
    s.len() > 0 && (s[0] == '*' || s[0] == '!')
}

/// Result of `pwhash::unix::verify(pass, hash)`: whether the crypt-style
/// hash, recomputed from `pass` with the algorithm and salt written in
/// `hash`, equals `hash`.
pub uninterp spec fn crypt_matches(pass: Seq<char>, hash: Seq<char>) -> bool;

/// Relies on `pwhash::unix::verify`: recognises the hash format, recomputes
/// the hash of `pass` with the salt of `hash` and compares the two; it
/// depends on its arguments alone.
/// Its base-64 decoding of salts indexes a table of 96 entries by the
/// character's offset from U+0020, so the hash is held to printable ASCII.
#[verifier::external_body]
fn unix_verify(pass: &str, hash: &str) -> (r: bool)
    requires
        crypt_text(hash@),
    ensures
        r == crypt_matches(pass@, hash@),
{
    pwhash::unix::verify(pass, hash)
}

/// Text that a crypt-style hash can hold: printable ASCII only.
pub open spec fn crypt_text(s: Seq<char>) -> bool {
    forall|i: int| 0 <= i < s.len() ==> ' ' <= #[trigger] s[i] && s[i] <= '~'
}

/// Whether every character of `h` is printable ASCII.
pub fn is_crypt_text(h: &str) -> (r: bool)
    ensures
        r == crypt_text(h@),
{
    let n = h.unicode_len();
    let mut i: usize = 0;
    while i < n
        invariant
            n == h@.len(),
            i <= n,
            forall|k: int| 0 <= k < i ==> ' ' <= #[trigger] h@[k] && h@[k] <= '~',
        decreases n - i,
    {
        let c = h.get_char(i);
        if c < ' ' || c > '~' {
            return false;
        }
        i = i + 1;
    }
    true
}

/// Whether the shadow backend accepts `pass` against the stored `hash`.
pub open spec fn accepts(hash: Seq<char>, pass: Seq<char>) -> bool {
    !is_disabled_marker(hash) && crypt_text(hash) && crypt_matches(pass, hash)
}

/// Verifies a password against a stored crypt-style hash. A hash that marks
/// a disabled or locked account, or that holds anything but printable ASCII,
/// accepts no password.
pub fn verify_user(hash: &str, pw: &str) -> (r: bool)
    ensures
        r == accepts(hash@, pw@),
{
    if hash.unicode_len() > 0 {
        let c = hash.get_char(0);
        if c == '*' || c == '!' {
            return false;
        }
    }
    if !is_crypt_text(hash) {
        return false;
    }
    unix_verify(pw, hash)
}

/// The text of a database record, given its bytes, or `None` where the
/// database holds no entry.
pub open spec fn record_text(record: Option<Vec<u8>>) -> Result<Seq<char>, ShadowError> {
    match record {
        None => Err(ShadowError::RecordNotFound),
        Some(b) => if valid_utf8(b@) {
            Ok(decode_utf8(b@))
        } else {
            Err(ShadowError::EncodingError)
        },
    }
}

fn decode_record(record: Option<Vec<u8>>) -> (r: Result<String, ShadowError>)
    ensures
        match r {
            Ok(s) => record_text(record) == Ok::<Seq<char>, ShadowError>(s@),
            Err(e) => record_text(record) == Err::<Seq<char>, ShadowError>(e),
        },
{
    match record {
        None => Err(ShadowError::RecordNotFound),
        Some(bytes) => match utf8_text(bytes) {
            Some(s) => Ok(s),
            None => Err(ShadowError::EncodingError),
        },
    }
}

/// Reads the password field of the user's user-database record (`None`
/// where there is none): the shadowed marker sends the caller to the shadow
/// database, a disabled marker is kept as the hash (it accepts nothing), and
/// any other field is an unsupported format.
pub fn locate_hash(passwd_record: Option<Vec<u8>>) -> (r: Result<HashLocation, ShadowError>)
    ensures
        match record_text(passwd_record) {
            Err(e) => r == Err::<HashLocation, ShadowError>(e),
            Ok(f) => if is_shadowed_marker(f) {
                r matches Ok(HashLocation::ShadowDatabase)
            } else if is_disabled_field(f) {
                r matches Ok(HashLocation::Field(h)) && h@ == f
            } else {
                r == Err::<HashLocation, ShadowError>(ShadowError::UnsupportedFormat)
            },
        },
{
    let field = match decode_record(passwd_record) {
        Ok(f) => f,
        Err(e) => return Err(e),
    };
    let n = field.as_str().unicode_len();
    if n == 0 {
        return Err(ShadowError::UnsupportedFormat);
    }
    let c = field.as_str().get_char(0);
    if c == 'x' && n == 1 {
        Ok(HashLocation::ShadowDatabase)
    } else if c == '*' {
        Ok(HashLocation::Field(field))
    } else {
        Err(ShadowError::UnsupportedFormat)
    }
}

/// The hash to verify against: the password field that `location` kept, or
/// else the hash field of the user's shadow-database record (`None` where
/// there is none). The shadow record is read only when `location` asks for it.
pub fn get_shadow_hash(location: Result<HashLocation, ShadowError>, shadow_record: Option<Vec<u8>>)
    -> (r: Result<String, ShadowError>)
    ensures
        match location {
            Err(e) => r == Err::<String, ShadowError>(e),
            Ok(HashLocation::Field(h)) => r == Ok::<String, ShadowError>(h),
            Ok(HashLocation::ShadowDatabase) => match r {
                Ok(s) => record_text(shadow_record) == Ok::<Seq<char>, ShadowError>(s@),
                Err(e) => record_text(shadow_record) == Err::<Seq<char>, ShadowError>(e),
            },
        },
{
    match location {
        Err(e) => Err(e),
        Ok(HashLocation::Field(h)) => Ok(h),
        Ok(HashLocation::ShadowDatabase) => decode_record(shadow_record),
    }
}

/// What the shadow backend answers: a hash that could not be found accepts
/// nothing; otherwise the password is verified against it.
pub fn shadow_verify_password(hash: &Result<String, ShadowError>, pass: &str) -> (r: bool)
    ensures
        r == match hash {
            Ok(h) => accepts(h@, pass@),
            Err(_) => false,
        },
{
    match hash {
        Ok(h) => verify_user(h.as_str(), pass),
        Err(_) => false,
    }
}

/// Verification yields `true` only for a printable hash that is no disabled
/// marker and that the password reproduces: a disabled or locked account, a
/// hash that is not crypt text and a wrong password are refused, and the
/// answer depends on the pair alone, so verifying the same pair again gives
/// the same answer.
pub proof fn lemma_shadow_refusals(hash: Seq<char>, pass: Seq<char>)
    ensures
        is_disabled_marker(hash) ==> !accepts(hash, pass),
        !crypt_matches(pass, hash) ==> !accepts(hash, pass),
        !crypt_text(hash) ==> !accepts(hash, pass),
        accepts(hash, pass) <==> (!is_disabled_marker(hash) && crypt_text(hash) && crypt_matches(
            pass,
            hash,
        )),
{
}

} // verus!
