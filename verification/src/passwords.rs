//! Password hashing.
//!
//! Two schemes live side by side on the platform: the salted SHA-256 digest
//! used by the tenant sites (`hash_password` / `verify_password`), and the
//! Argon2id PHC strings of the administration back office (`PasswordHasher`).
use vstd::prelude::*;
use crate::crypto::{sha256, sha256_digest, utf8, utf8_bytes, append_bytes, argon2_hash, argon2_verify, argon2_verdict};
use crate::hexenc::{hex_lower, encode_hex};
use crate::random::random_bytes;
use crate::sessions::SessionError;

verus! {

/// The stored digest of `plain` under `salt`: the lower-case hex form of
/// SHA-256 over the UTF-8 bytes of the salt followed by those of the password.
pub open spec fn password_digest(plain: Seq<char>, salt: Seq<char>) -> Seq<char> {
    hex_lower(sha256(utf8(salt) + utf8(plain)))
}

/// A password matches a stored hash when its digest under the salt is
/// exactly the stored text.
pub open spec fn password_matches(plain: Seq<char>, salt: Seq<char>, stored: Seq<char>) -> bool {
    password_digest(plain, salt) == stored
}

/// A fresh salt: the lower-case hex form of 32 random bytes (64 characters).
pub fn generate_salt() -> (res: String)
    ensures
        exists|b: Seq<u8>| b.len() == 32 && res@ == hex_lower(b),
        res@.len() == 64,
{
    let bytes = random_bytes(32);
    proof {
        crate::hexenc::lemma_hex_lower_len(bytes@);
    }
    encode_hex(&bytes)
}

/// Hash a password with a salt using SHA-256.
pub fn hash_password(plain: &str, salt: &str) -> (res: String)
    ensures
        res@ == password_digest(plain@, salt@),
        res@.len() == 64,
{
    let mut input = utf8_bytes(salt);
    let plain_bytes = utf8_bytes(plain);
    append_bytes(&mut input, &plain_bytes);
    let digest = sha256_digest(&input);
    proof {
        crate::hexenc::lemma_hex_lower_len(digest@);
    }
    encode_hex(&digest)
}

/// Verify a plain password against a stored hash and salt.
pub fn verify_password(plain: &str, salt: &str, stored_hash: &str) -> (res: bool)
    ensures
        res == password_matches(plain@, salt@, stored_hash@),
{
    let computed_hash = hash_password(plain, salt);
    crate::text::str_eq(computed_hash.as_str(), stored_hash)
}

/// A password always matches the hash that `hash_password` stores for it.
pub proof fn law_password_roundtrip(plain: Seq<char>, salt: Seq<char>)
    ensures
        password_matches(plain, salt, password_digest(plain, salt)),
{
}

/// Argon2id password hashing for back-office accounts.
pub struct PasswordHasher;

impl PasswordHasher {
    /// Hash a password into a PHC string with a fresh random salt.  Hashing
    /// failures come back as `SessionError::StorageError` with the hasher's
    /// message; they happen only for passwords longer than `u32::MAX` bytes.
    /// A produced hash always verifies against the same password.
    pub fn hash(password: &str) -> (res: Result<String, SessionError>)
        ensures
            res matches Ok(phc) ==> argon2_verdict(utf8(password@), phc@) == Some(true),
            res matches Err(e) ==> e is StorageError,
            utf8(password@).len() <= 0xFFFF_FFFF ==> res is Ok,
    {
        let bytes = utf8_bytes(password);
        match argon2_hash(&bytes) {
            Ok(phc) => Ok(phc),
            Err(msg) => Err(SessionError::StorageError(msg)),
        }
    }

    /// Check a password against a PHC string.  A malformed PHC string is a
    /// `SessionError::StorageError`; otherwise the answer is whether Argon2
    /// accepts the password.
    pub fn verify(password: &str, hash: &str) -> (res: Result<bool, SessionError>)
        ensures
            res is Ok <==> argon2_verdict(utf8(password@), hash@) is Some,
            res matches Ok(b) ==> argon2_verdict(utf8(password@), hash@) == Some(b),
            res matches Err(e) ==> e is StorageError,
    {
        let bytes = utf8_bytes(password);
        match argon2_verify(&bytes, hash) {
            Ok(b) => Ok(b),
            Err(msg) => Err(SessionError::StorageError(msg)),
        }
    }
}

} // verus!
