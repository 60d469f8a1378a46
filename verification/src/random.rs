//! Randomness: the `rand` and `uuid` crates.
use vstd::prelude::*;
use rand::Rng;

verus! {

/// `Rng::fill` of `rand` on `rand::rng()`: `n` random bytes.
#[verifier::external_body]
pub(crate) fn random_bytes(n: usize) -> (res: Vec<u8>)
    ensures
        res@.len() == n,
{
    let mut bytes = vec![0u8; n];
    rand::rng().fill(&mut bytes[..]);
    bytes
}

/// `rand::rng().sample_iter(&Alphanumeric).take(n).map(char::from)`:
/// `n` characters drawn from `A-Z`, `a-z` and `0-9` (the charset of
/// `rand::distr::Alphanumeric`).
#[verifier::external_body]
pub(crate) fn random_alphanumeric(n: usize) -> (res: Vec<char>)
    ensures
        res@.len() == n,
        forall|i: int| 0 <= i < n ==> crate::text::is_ascii_alphanumeric(#[trigger] res@[i]),
{
    rand::rng().sample_iter(&rand::distr::Alphanumeric).take(n).map(char::from).collect()
}

/// The textual shape of `Uuid::to_string` for a version-4 UUID: 36
/// characters, hyphens at 8, 13, 18 and 23, lower-case hex digits elsewhere,
/// and the version digit `4` at index 14.
pub open spec fn is_uuid_v4_text(s: Seq<char>) -> bool {
    &&& s.len() == 36
    &&& forall|i: int|
        0 <= i < 36 ==> if i == 8 || i == 13 || i == 18 || i == 23 {
            s[i] == '-'
        } else {
            crate::hexenc::is_lower_hex_char(#[trigger] s[i])
        }
    &&& s[14] == '4'
}

/// `Uuid::new_v4().to_string()` of the `uuid` crate: a random UUID in its
/// hyphenated lower-case form.
#[verifier::external_body]
pub(crate) fn new_uuid_v4_string() -> (res: String)
    ensures
        is_uuid_v4_text(res@),
{
    uuid::Uuid::new_v4().to_string()
}

} // verus!
