//! Calls into outside crates: identifiers (uuid), the clock (chrono) and
//! password hashing (pwhash). Each item here is trusted: its contract is
//! believed, not proved.

use vstd::prelude::*;
use crate::error::PwhashError;
use pwhash::error::Error as PwError;

verus! {

/// Whether `pwhash::bcrypt::verify` accepts `password` against `hash`; the
/// answer depends on the two strings alone.
pub uninterp spec fn bcrypt_accepts(password: Seq<char>, hash: Seq<char>) -> bool;

/// A lower-case hexadecimal digit.
pub open spec fn is_lower_hex(c: char) -> bool {
    ('0' <= c && c <= '9') || ('a' <= c && c <= 'f')
}

/// An identifier in the simple UUID format: 32 lower-case hexadecimal digits.
pub open spec fn is_simple_id(id: Seq<char>) -> bool {
    id.len() == 32 && forall|i: int| 0 <= i < 32 ==> is_lower_hex(#[trigger] id[i])
}

/// A fresh identifier: `uuid::Uuid::new_v4().simple().to_string()`, a random
/// version-4 UUID in the simple format, 32 lower-case hexadecimal digits.
/// Only the length and the alphabet are claimed; which identifier comes back
/// is left open.
#[verifier::external_body]
pub(crate) fn new_id() -> (id: String)
    ensures
        id@.len() == 32,
        forall|i: int| 0 <= i < 32 ==> is_lower_hex(#[trigger] id@[i]),
{
    uuid::Uuid::new_v4().simple().to_string()
}

/// The current time: `chrono::Utc::now().timestamp()`, seconds since the Unix
/// epoch, as `u64`. It depends on the clock, so nothing is claimed of it.
#[verifier::external_body]
pub(crate) fn now_timestamp() -> (t: u64) {
    chrono::Utc::now().timestamp() as u64
}

/// Whether every character of a stored password hash lies between `' '` and
/// `'\u{7f}'`. `pwhash::bcrypt::verify` reads the salt of a hash through a
/// table indexed by the character minus `' '`; a character below `' '`
/// underflows that subtraction and `'\u{80}'` indexes past the table, so
/// verification may panic on hashes that fail this test. Hashes made by
/// `pwhash::bcrypt::hash` pass it.
pub open spec fn hash_chars_in_range(hash: Seq<char>) -> bool {
    forall|i: int| 0 <= i < hash.len() ==> ' ' <= #[trigger] hash[i] && hash[i] <= '\u{7f}'
}

/// `pwhash::bcrypt::hash`: hashes `password` with a random salt, the default
/// cost and variant. Claimed: it succeeds (in this version the hash is always
/// formatted and returned; a failing random source panics instead of
/// answering an error), the hash consists of `'$'`, the variant, two cost
/// digits and characters of the bcrypt Base64 alphabet, so all its
/// characters lie between `' '` and `'\u{7f}'`, and `pwhash::bcrypt::verify`
/// accepts the same password against it. Which hash comes back is left open.
#[verifier::external_body]
pub(crate) fn bcrypt_hash(password: &str) -> (res: Result<String, PwhashError>)
    ensures
        res is Ok,
        res matches Ok(h) ==> bcrypt_accepts(password@, h@) && hash_chars_in_range(h@),
{
    match pwhash::bcrypt::hash(password) {
        Ok(h) => Ok(h),
        Err(PwError::RandomError(m)) => Err(PwhashError::RandomError(m)),
        Err(PwError::EncodingError) => Err(PwhashError::EncodingError),
        Err(PwError::InsufficientLength) => Err(PwhashError::InsufficientLength),
        Err(PwError::InvalidRounds) => Err(PwhashError::InvalidRounds),
        Err(PwError::InvalidHashString) => Err(PwhashError::InvalidHashString),
    }
}

/// `pwhash::bcrypt::verify`: whether `hash` corresponds to `password`.
/// Claimed: the answer is `bcrypt_accepts` of the two strings. Only hashes
/// whose characters all lie between `' '` and `'\u{7f}'` are admitted, since
/// on others the salt decoding may panic.
#[verifier::external_body]
pub(crate) fn bcrypt_verify(password: &str, hash: &str) -> (ok: bool)
    requires
        hash_chars_in_range(hash@),
    ensures
        ok == bcrypt_accepts(password@, hash@),
{
    pwhash::bcrypt::verify(password, hash)
}

/// Whether every character of `hash` lies between `' '` and `'\u{7f}'`.
pub fn check_hash_chars(hash: &str) -> (b: bool)
    ensures
        b == hash_chars_in_range(hash@),
{
    let ghost whole = hash@;
    let mut ok = true;
    for c in it: hash.chars()
        invariant
            it.seq() == whole,
            ok == (forall|i: int| 0 <= i < it.index() ==> ' ' <= #[trigger] whole[i] && whole[i] <= '\u{7f}'),
    {
        if c < ' ' || c > '\u{7f}' {
            ok = false;
        }
    }
    ok
}

} // verus!
