//! Cross-site request forgery tokens.
//!
//! Two token schemes are in use: random tokens kept server-side under the
//! session id (`generate_token`, `check_stored_token`), and self-validating
//! tokens bound to a session and a server secret (`CsrfToken`).
use vstd::prelude::*;
use crate::crypto::{sha256, sha256_digest, utf8, utf8_bytes, append_bytes};
use crate::hexenc::{hex_lower, encode_hex, is_lower_hex_char, lemma_hex_lower_chars};
use crate::random::{random_bytes, random_alphanumeric};
use crate::text::{
    after_last_char, after_last_char_str, before_char, before_char_str, chars_of, count_char,
    is_ascii_alphanumeric, push_char, push_str, str_eq, string_from_chars,
};

verus! {

broadcast use vstd::string::group_string_axioms;

/// What went wrong with a CSRF token.
#[derive(Debug)]
pub enum CsrfError {
    GenerationFailed(String),
    ValidationFailed(String),
    TokenMissing,
    TokenInvalid,
}

/// A fresh server-side token: the lower-case hex SHA-256 digest of 32 random
/// bytes.
pub fn generate_token() -> (res: Result<String, CsrfError>)
    ensures
        res matches Ok(t) && exists|b: Seq<u8>| b.len() == 32 && t@ == hex_lower(sha256(b)),
{
    let random = random_bytes(32);
    let digest = sha256_digest(&random);
    Ok(encode_hex(&digest))
}

/// The cache key of the token of a session: `csrf:<session id>`.
pub open spec fn csrf_key_of(session_id: Seq<char>) -> Seq<char> {
    "csrf:"@ + session_id
}

/// The verdict on a submitted token given the token stored for the
/// session, if any.
pub open spec fn token_verdict(stored: Option<Seq<char>>, token: Seq<char>) -> Result<(), CsrfError> {
    match stored {
        None => Err(CsrfError::TokenMissing),
        Some(s) => if s == token { Ok(()) } else { Err(CsrfError::TokenInvalid) },
    }
}

/// The value a cache holds under a key, if any.
pub open spec fn cached(cache: Map<Seq<char>, Seq<char>>, key: Seq<char>) -> Option<Seq<char>> {
    if cache.dom().contains(key) { Some(cache[key]) } else { None }
}

/// The text of an optional stored string.
pub open spec fn stored_text(o: Option<String>) -> Option<Seq<char>> {
    match o {
        Some(s) => Some(s@),
        None => None,
    }
}

/// The cache key of the token of a session.
pub fn csrf_key(session_id: &str) -> (res: String)
    ensures
        res@ == csrf_key_of(session_id@),
{
    let mut key = String::new();
    push_str(&mut key, "csrf:");
    push_str(&mut key, session_id);
    key
}

/// The verdict on a submitted token, given what the cache returned for the
/// session's key: the cache's error becomes `ValidationFailed`, no stored
/// token is `TokenMissing`, a different stored token is `TokenInvalid`.
pub fn check_stored_token(stored: Result<Option<String>, String>, token: &str) -> (res: Result<(), CsrfError>)
    ensures
        stored matches Err(m) ==> res == Err::<(), CsrfError>(CsrfError::ValidationFailed(m)),
        stored matches Ok(None) ==> res matches Err(CsrfError::TokenMissing),
        stored matches Ok(Some(s)) ==> (if s@ == token@ { res is Ok } else { res matches Err(CsrfError::TokenInvalid) }),
        stored matches Ok(o) ==> res == token_verdict(stored_text(o), token@),
{
    match stored {
        Err(m) => Err(CsrfError::ValidationFailed(m)),
        Ok(None) => Err(CsrfError::TokenMissing),
        Ok(Some(s)) => {
            if str_eq(s.as_str(), token) {
                Ok(())
            } else {
                Err(CsrfError::TokenInvalid)
            }
        },
    }
}

/// Against a cache: once a token is stored under a session's key, that
/// token is accepted and any other is `TokenInvalid`; once the key is
/// deleted, every token is `TokenMissing`. Checking never changes the cache.
pub proof fn law_token_store_check_delete(
    cache: Map<Seq<char>, Seq<char>>,
    session_id: Seq<char>,
    token: Seq<char>,
    other: Seq<char>,
)
    requires
        other != token,
    ensures
        token_verdict(cached(cache.insert(csrf_key_of(session_id), token), csrf_key_of(session_id)), token)
            == Ok::<(), CsrfError>(()),
        token_verdict(cached(cache.insert(csrf_key_of(session_id), token), csrf_key_of(session_id)), other)
            == Err::<(), CsrfError>(CsrfError::TokenInvalid),
        token_verdict(cached(cache.remove(csrf_key_of(session_id)), csrf_key_of(session_id)), token)
            == Err::<(), CsrfError>(CsrfError::TokenMissing),
{
}

// ---------------------------------------------------------------------------
// Session-bound tokens
// ---------------------------------------------------------------------------

/// The MAC part of a session-bound token: the lower-case hex SHA-256 digest
/// of the session token, the secret and the nonce, in that order.
pub open spec fn token_mac(session_token: Seq<char>, secret: Seq<char>, nonce: Seq<char>) -> Seq<char> {
    hex_lower(sha256(utf8(session_token) + utf8(secret) + utf8(nonce)))
}

/// A session-bound token: `<nonce>:<mac>`.
pub open spec fn token_text(nonce: Seq<char>, session_token: Seq<char>, secret: Seq<char>) -> Seq<char> {
    nonce + seq![':'] + token_mac(session_token, secret, nonce)
}

/// A token is valid for a session and secret when it splits at `:` into
/// exactly two parts and the second is the MAC of the first.
pub open spec fn token_valid(token: Seq<char>, session_token: Seq<char>, secret: Seq<char>) -> bool {
    count_char(token, ':') == 1 && token_mac(session_token, secret, before_char(token, ':'))
        == after_last_char(token, ':')
}

fn mac_for(session_token: &str, secret: &str, nonce: &str) -> (res: String)
    ensures
        res@ == token_mac(session_token@, secret@, nonce@),
{
    let mut input = utf8_bytes(session_token);
    let secret_bytes = utf8_bytes(secret);
    append_bytes(&mut input, &secret_bytes);
    let nonce_bytes = utf8_bytes(nonce);
    append_bytes(&mut input, &nonce_bytes);
    assert(utf8(session_token@) + utf8(secret@) + utf8(nonce@) == input@);
    let digest = sha256_digest(&input);
    encode_hex(&digest)
}

fn count_char_exec(s: &[char], c: char) -> (res: usize)
    ensures
        res == count_char(s@, c),
{
    let mut n: usize = 0;
    let mut i: usize = 0;
    assert(s@.take(0) =~= Seq::<char>::empty());
    while i < s.len()
        invariant
            i <= s@.len(),
            n == count_char(s@.take(i as int), c),
            n <= i,
        decreases s@.len() - i,
    {
        assert(s@.take(i + 1).drop_last() =~= s@.take(i as int));
        if s[i] == c {
            n += 1;
        }
        i += 1;
    }
    assert(s@.take(s@.len() as int) =~= s@);
    n
}

/// Unit type for session-bound CSRF tokens.
pub struct CsrfToken;

impl CsrfToken {
    /// A token for `session_token` under `secret`, with a fresh nonce of 16
    /// random alphanumeric characters.
    pub fn generate(session_token: &str, secret: &str) -> (res: String)
        ensures
            exists|nonce: Seq<char>|
                nonce.len() == 16 && (forall|i: int| 0 <= i < 16 ==> is_ascii_alphanumeric(#[trigger] nonce[i]))
                    && res@ == token_text(nonce, session_token@, secret@),
    {
        let nonce_chars = random_alphanumeric(16);
        let nonce = string_from_chars(&nonce_chars);
        let mac = mac_for(session_token, secret, nonce.as_str());
        let mut token = String::new();
        push_str(&mut token, nonce.as_str());
        push_char(&mut token, ':');
        push_str(&mut token, mac.as_str());
        assert(token@ == token_text(nonce@, session_token@, secret@));
        token
    }

    /// Whether `token` was made by `generate` for this session and secret.
    pub fn validate(token: &str, session_token: &str, secret: &str) -> (res: bool)
        ensures
            res == token_valid(token@, session_token@, secret@),
    {
        let chars = chars_of(token);
        if count_char_exec(&chars, ':') != 1 {
            return false;
        }
        let nonce = before_char_str(token, ':');
        let expected = after_last_char_str(token, ':');
        let mac = mac_for(session_token, secret, nonce.as_str());
        str_eq(mac.as_str(), expected.as_str())
    }
}

proof fn lemma_count_concat(a: Seq<char>, b: Seq<char>, c: char)
    ensures
        count_char(a + b, c) == count_char(a, c) + count_char(b, c),
    decreases b.len(),
{
    if b.len() == 0 {
        assert(a + b =~= a);
    } else {
        lemma_count_concat(a, b.drop_last(), c);
        assert((a + b).drop_last() =~= a + b.drop_last());
    }
}

proof fn lemma_count_absent(a: Seq<char>, c: char)
    requires
        !a.contains(c),
    ensures
        count_char(a, c) == 0,
    decreases a.len(),
{
    if a.len() > 0 {
        assert(!a.drop_last().contains(c)) by {
            if a.drop_last().contains(c) {
                let i = choose|i: int| 0 <= i < a.drop_last().len() && a.drop_last()[i] == c;
                assert(a[i] == c);
            }
        }
        lemma_count_absent(a.drop_last(), c);
        assert(a[a.len() - 1] != c);
    }
}

proof fn lemma_before_split(a: Seq<char>, b: Seq<char>, c: char)
    requires
        !a.contains(c),
    ensures
        before_char(a + seq![c] + b, c) == a,
    decreases a.len(),
{
    let s = a + seq![c] + b;
    if a.len() == 0 {
        assert(s[0] == c);
    } else {
        assert(a[0] != c);
        assert(!a.skip(1).contains(c)) by {
            if a.skip(1).contains(c) {
                let i = choose|i: int| 0 <= i < a.skip(1).len() && a.skip(1)[i] == c;
                assert(a[i + 1] == c);
            }
        }
        lemma_before_split(a.skip(1), b, c);
        assert(s.skip(1) =~= a.skip(1) + seq![c] + b);
        assert(a =~= seq![a[0]] + a.skip(1));
    }
}

proof fn lemma_after_split(a: Seq<char>, b: Seq<char>, c: char)
    requires
        !b.contains(c),
    ensures
        after_last_char(a + seq![c] + b, c) == b,
    decreases b.len(),
{
    let s = a + seq![c] + b;
    if b.len() == 0 {
        assert(s.last() == c);
    } else {
        assert(b.last() != c);
        assert(!b.drop_last().contains(c)) by {
            if b.drop_last().contains(c) {
                let i = choose|i: int| 0 <= i < b.drop_last().len() && b.drop_last()[i] == c;
                assert(b[i] == c);
            }
        }
        lemma_after_split(a, b.drop_last(), c);
        assert(s.drop_last() =~= a + seq![c] + b.drop_last());
        assert(b.drop_last().push(b.last()) =~= b);
    }
}

/// A token made by `generate` for a session and secret is accepted by
/// `validate` for the same session and secret.
pub proof fn law_generated_token_validates(nonce: Seq<char>, session_token: Seq<char>, secret: Seq<char>)
    requires
        forall|i: int| 0 <= i < nonce.len() ==> is_ascii_alphanumeric(#[trigger] nonce[i]),
    ensures
        token_valid(token_text(nonce, session_token, secret), session_token, secret),
{
    let mac = token_mac(session_token, secret, nonce);
    let t = token_text(nonce, session_token, secret);
    assert(!nonce.contains(':')) by {
        if nonce.contains(':') {
            let i = choose|i: int| 0 <= i < nonce.len() && nonce[i] == ':';
            assert(is_ascii_alphanumeric(nonce[i]));
        }
    }
    lemma_hex_lower_chars(sha256(utf8(session_token) + utf8(secret) + utf8(nonce)));
    assert(!mac.contains(':')) by {
        if mac.contains(':') {
            let i = choose|i: int| 0 <= i < mac.len() && mac[i] == ':';
            assert(is_lower_hex_char(mac[i]));
        }
    }
    lemma_before_split(nonce, mac, ':');
    lemma_after_split(nonce, mac, ':');
    lemma_count_concat(nonce + seq![':'], mac, ':');
    lemma_count_concat(nonce, seq![':'], ':');
    lemma_count_absent(nonce, ':');
    lemma_count_absent(mac, ':');
    assert(seq![':'].drop_last() =~= Seq::<char>::empty());
    assert(count_char(Seq::<char>::empty(), ':') == 0);
    assert(count_char(seq![':'], ':') == 1);
    assert(count_char(t, ':') == 1);
    assert(before_char(t, ':') == nonce);
    assert(after_last_char(t, ':') == mac);
}

} // verus!
