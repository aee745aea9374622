//! Password hashing and checking, done by the `bcrypt` crate.

use vstd::prelude::*;

verus! {

/// Whether `h` has the form of a bcrypt hash of version 2b at `cost`: sixty
/// characters, `$2b$`, the cost in two digits, `$`, then salt and hash.
pub open spec fn bcrypt_shape(h: Seq<char>, cost: u32) -> bool {
    &&& h.len() == 60
    &&& h[0] == '$' && h[1] == '2' && h[2] == 'b' && h[3] == '$'
    &&& h[4] as int == '0' as int + cost / 10
    &&& h[5] as int == '0' as int + cost % 10
    &&& h[6] == '$'
}

/// The bcrypt cost with which new passwords are hashed.
pub const HASH_COST: u32 = 10;

/// What `bcrypt::verify(password, hash)` returns: `Some(b)` for `Ok(b)`,
/// `None` for an error (a malformed hash).
pub uninterp spec fn bcrypt_verify(password: Seq<char>, hash: Seq<char>) -> Option<bool>;

/// The hash string that `bcrypt::hash_with_salt(password, cost, salt)` formats
/// (version 2b), or `None` where it returns an error.
pub uninterp spec fn bcrypt_hash(password: Seq<char>, cost: u32, salt: Seq<u8>) -> Option<Seq<char>>;

/// Calls `bcrypt::verify`: whether `password` hashes to `hash` under the cost
/// and salt that `hash` names. Claimed: the result is `bcrypt_verify` of the
/// two strings, with the error turned into `None`.
#[verifier::external_body]
pub(crate) fn verify_password(password: &str, hash: &str) -> (r: Option<bool>)
    ensures
        r == bcrypt_verify(password@, hash@),
{
    match bcrypt::verify(password, hash) {
        Ok(b) => Some(b),
        Err(_) => None,
    }
}

/// Calls `bcrypt::hash_with_salt` and formats the parts it returns with
/// `to_string` (the 2b form). Claimed: the result is `bcrypt_hash` of the
/// arguments, and, as the crate's source shows, it fails exactly when the cost
/// lies outside `4..=31`; and a hash that it returns is one that
/// `bcrypt::verify` accepts for the same password (verification splits the
/// cost and the salt off the hash and hashes the password again with them),
/// and it has the 2b form that the crate writes (`bcrypt_shape`).
#[verifier::external_body]
pub(crate) fn hash_password(password: &str, cost: u32, salt: [u8; 16]) -> (r: Option<String>)
    ensures
        bcrypt_hash(password@, cost, salt@) == (match r {
            Some(h) => Some(h@),
            None => None::<Seq<char>>,
        }),
        r is Some <==> 4 <= cost <= 31,
        r matches Some(h) ==> bcrypt_verify(password@, h@) == Some(true),
        r matches Some(h) ==> bcrypt_shape(h@, cost),
{
    match bcrypt::hash_with_salt(password, cost, salt) {
        Ok(parts) => Some(parts.to_string()),
        Err(_) => None,
    }
}

/// Calls `uuid::Uuid::new_v4` and returns its sixteen bytes: a random salt.
/// Nothing is claimed of the bytes.
#[verifier::external_body]
pub(crate) fn fresh_salt() -> (salt: [u8; 16]) {
    uuid::Uuid::new_v4().into_bytes()
}

} // verus!
