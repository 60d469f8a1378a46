//! Hashing and password-hashing primitives of the `sha2` and `argon2` crates.
use vstd::prelude::*;
use argon2::password_hash::{PasswordHash, PasswordVerifier};
use argon2::password_hash::{rand_core::OsRng, PasswordHasher, SaltString};
use sha2::Digest;

verus! {

/// The SHA-256 digest of a byte string, as computed by the `sha2` crate.
pub uninterp spec fn sha256(data: Seq<u8>) -> Seq<u8>;

/// `Sha256::digest` of `sha2`: fed `data`, the hasher yields the SHA-256
/// digest of `data`, always 32 bytes long (the output size of `Sha256`).
#[verifier::external_body]
pub(crate) fn sha256_digest(data: &[u8]) -> (res: Vec<u8>)
    ensures
        res@ == sha256(data@),
        res@.len() == 32,
{
    sha2::Sha256::digest(data).to_vec()
}

/// The UTF-8 bytes of a string view (what `str::as_bytes` yields).
pub open spec fn utf8(s: Seq<char>) -> Seq<u8> {
    vstd::utf8::encode_utf8(s)
}

/// The UTF-8 bytes of a string slice.
pub fn utf8_bytes(s: &str) -> (res: Vec<u8>)
    ensures
        res@ == utf8(s@),
{
    let b = s.as_bytes();
    let mut res: Vec<u8> = Vec::new();
    let mut i: usize = 0;
    while i < b.len()
        invariant
            i <= b@.len(),
            res@ == b@.take(i as int),
        decreases b@.len() - i,
    {
        res.push(b[i]);
        assert(b@.take(i + 1) =~= b@.take(i as int).push(b@[i as int]));
        i += 1;
    }
    assert(b@.take(b@.len() as int) =~= b@);
    res
}

/// Appends `more` to `v`.
pub fn append_bytes(v: &mut Vec<u8>, more: &[u8])
    ensures
        final(v)@ == old(v)@ + more@,
{
    let mut i: usize = 0;
    while i < more.len()
        invariant
            i <= more@.len(),
            v@ == old(v)@ + more@.take(i as int),
        decreases more@.len() - i,
    {
        v.push(more[i]);
        assert(old(v)@ + more@.take(i + 1) =~= (old(v)@ + more@.take(i as int)).push(more@[i as int]));
        i += 1;
    }
    assert(more@.take(more@.len() as int) =~= more@);
}

/// The block-sized key of HMAC-SHA256: a key longer than the 64-byte block
/// is replaced by its digest, then the key is padded with zero bytes to 64.
pub open spec fn hmac_block_key(key: Seq<u8>) -> Seq<u8> {
    let k = if key.len() > 64 { sha256(key) } else { key };
    k + Seq::new((64 - k.len()) as nat, |i: int| 0u8)
}

/// Every byte of `k` combined with `pad` by exclusive or.
pub open spec fn xor_pad(k: Seq<u8>, pad: u8) -> Seq<u8> {
    k.map_values(|b: u8| b ^ pad)
}

/// HMAC-SHA256 (RFC 2104) of `msg` under `key`:
/// `H((K ^ opad) ++ H((K ^ ipad) ++ msg))` with the block-sized key `K`,
/// `ipad` the byte `0x36` and `opad` the byte `0x5c`.
pub open spec fn hmac_sha256(key: Seq<u8>, msg: Seq<u8>) -> Seq<u8> {
    let k = hmac_block_key(key);
    sha256(xor_pad(k, 0x5c) + sha256(xor_pad(k, 0x36) + msg))
}

/// `k` combined with `pad` byte by byte, for a block-sized key.
fn xor_block(k: &Vec<u8>, pad: u8) -> (res: Vec<u8>)
    ensures
        res@ == xor_pad(k@, pad),
{
    let mut res: Vec<u8> = Vec::new();
    let mut i: usize = 0;
    while i < k.len()
        invariant
            i <= k@.len(),
            res@ =~= xor_pad(k@.take(i as int), pad),
        decreases k@.len() - i,
    {
        res.push(k[i] ^ pad);
        assert(xor_pad(k@.take(i + 1), pad) =~= xor_pad(k@.take(i as int), pad).push(k@[i as int] ^ pad));
        i += 1;
    }
    assert(k@.take(k@.len() as int) =~= k@);
    res
}

/// HMAC-SHA256 of `msg` under `key`.
pub fn hmac_sha256_bytes(key: &[u8], msg: &[u8]) -> (res: Vec<u8>)
    ensures
        res@ == hmac_sha256(key@, msg@),
{
    let mut k: Vec<u8> = Vec::new();
    if key.len() > 64 {
        let d = sha256_digest(key);
        append_bytes(&mut k, d.as_slice());
    } else {
        append_bytes(&mut k, key);
    }
    let ghost base = k@;
    assert(base == if key@.len() > 64 { sha256(key@) } else { key@ });
    assert(base.len() <= 64);
    while k.len() < 64
        invariant
            base.len() <= k@.len() <= 64,
            k@ =~= base + Seq::new((k@.len() - base.len()) as nat, |i: int| 0u8),
        decreases 64 - k@.len(),
    {
        k.push(0u8);
    }
    assert(k@ == hmac_block_key(key@));
    let mut inner = xor_block(&k, 0x36);
    append_bytes(&mut inner, msg);
    let inner_digest = sha256_digest(inner.as_slice());
    let mut outer = xor_block(&k, 0x5c);
    append_bytes(&mut outer, inner_digest.as_slice());
    sha256_digest(outer.as_slice())
}

/// What the `argon2` crate answers when asked whether `password` matches the
/// PHC string `phc`: `None` when `phc` is not a well-formed PHC string,
/// otherwise whether `Argon2::verify_password` accepts the password.
pub uninterp spec fn argon2_verdict(password: Seq<u8>, phc: Seq<char>) -> Option<bool>;

/// `PasswordHash::new` followed by `Argon2::default().verify_password` of the
/// `argon2` crate.  `Err` carries the text of the parse error; which text it
/// is, is not stated.  `Ok(b)` says whether the password matches.
#[verifier::external_body]
pub(crate) fn argon2_verify(password: &[u8], phc: &str) -> (res: Result<bool, String>)
    ensures
        res is Ok <==> argon2_verdict(password@, phc@) is Some,
        res matches Ok(b) ==> argon2_verdict(password@, phc@) == Some(b),
{
    match PasswordHash::new(phc) {
        Ok(parsed) => Ok(argon2::Argon2::default().verify_password(password, &parsed).is_ok()),
        Err(e) => Err(e.to_string()),
    }
}

/// `Argon2::default().hash_password` with a fresh random salt
/// (`SaltString::generate(&mut OsRng)`), rendered as a PHC string.  The salt is
/// random, so the string is not a function of the password; what holds of
/// every outcome is that verification with the default `Argon2` accepts the
/// same password against it (it recomputes the hash with the parameters and
/// salt recorded in the string).  With the default parameters and a
/// generated 16-byte salt, hashing fails only for a password longer than
/// `u32::MAX` bytes (`Argon2::verify_inputs`).  The error text is not
/// stated.
#[verifier::external_body]
pub(crate) fn argon2_hash(password: &[u8]) -> (res: Result<String, String>)
    ensures
        res matches Ok(phc) ==> argon2_verdict(password@, phc@) == Some(true),
        password@.len() <= 0xFFFF_FFFF ==> res is Ok,
{
    let salt = SaltString::generate(&mut OsRng);
    match argon2::Argon2::default().hash_password(password, &salt) {
        Ok(h) => Ok(h.to_string()),
        Err(e) => Err(e.to_string()),
    }
}

} // verus!
