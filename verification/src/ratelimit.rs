//! Request rate limiting.
//!
//! The counter of a key lives in the cache as decimal text.  A check reads
//! it (a missing or unreadable value counts as zero), refuses the request
//! once the counter has reached the limit, and otherwise writes back the
//! counter plus one with the window as its lifetime.
use vstd::prelude::*;
use crate::text::{chars_of, decimal, digit_char, is_ascii_digit, push_str, u64_to_string};

verus! {

broadcast use vstd::string::group_string_axioms;

/// The value of a string of ASCII digits, most significant first.
pub open spec fn digits_value(d: Seq<char>) -> nat
    decreases d.len(),
{
    if d.len() == 0 {
        0
    } else {
        digits_value(d.drop_last()) * 10 + ((d.last() as int - '0' as int) as nat)
    }
}

pub open spec fn all_digits(d: Seq<char>) -> bool {
    forall|i: int| 0 <= i < d.len() ==> is_ascii_digit(#[trigger] d[i])
}

/// The digits of an unsigned number's text: an optional leading `+` is
/// dropped.
pub open spec fn unsigned_digits(s: Seq<char>) -> Seq<char> {
    if s.len() > 0 && s[0] == '+' {
        s.skip(1)
    } else {
        s
    }
}

/// `s.parse::<u32>().ok()`: an optional `+`, then one or more ASCII digits
/// whose value fits in a `u32`.
pub open spec fn parse_u32(s: Seq<char>) -> Option<u32> {
    let d = unsigned_digits(s);
    if d.len() > 0 && all_digits(d) && digits_value(d) <= u32::MAX {
        Some(digits_value(d) as u32)
    } else {
        None
    }
}

proof fn lemma_digits_value_prefix(d: Seq<char>, k: int)
    requires
        all_digits(d),
        0 <= k <= d.len(),
    ensures
        digits_value(d.take(k)) <= digits_value(d),
    decreases d.len() - k,
{
    if k < d.len() {
        lemma_digits_value_prefix(d, k + 1);
        assert(d.take(k + 1).drop_last() =~= d.take(k));
        assert(is_ascii_digit(d[k]));
    } else {
        assert(d.take(k) =~= d);
    }
}

fn digit_value(c: char) -> (res: Option<u64>)
    ensures
        res is Some <==> is_ascii_digit(c),
        res matches Some(v) ==> v == c as int - '0' as int && v < 10,
{
    if '0' <= c && c <= '9' {
        Some((c as u32 - '0' as u32) as u64)
    } else {
        None
    }
}

/// The value of the digits of `c` from `start` on, when there is at least
/// one, all are ASCII digits and the value is at most `bound`.
fn digits_from(c: &Vec<char>, start: usize, bound: u64) -> (res: Option<u64>)
    requires
        start <= c@.len(),
        bound <= 0x1_0000_0000,
    ensures
        ({
            let d = c@.skip(start as int);
            res == if d.len() > 0 && all_digits(d) && digits_value(d) <= bound {
                Some(digits_value(d) as u64)
            } else {
                None::<u64>
            }
        }),
{
    let ghost d = c@.skip(start as int);
    if start == c.len() {
        return None;
    }
    let mut acc: u64 = 0;
    let mut i: usize = start;
    assert(d.take(0) =~= Seq::<char>::empty());
    while i < c.len()
        invariant
            d == c@.skip(start as int),
            start <= i <= c@.len(),
            bound <= 0x1_0000_0000,
            acc == digits_value(d.take(i - start)),
            acc <= bound,
            all_digits(d.take(i - start)),
        decreases c@.len() - i,
    {
        let k = i - start;
        assert(d.take(k + 1).drop_last() =~= d.take(k as int));
        assert(d[k as int] == c@[i as int]);
        match digit_value(c[i]) {
            None => {
                assert(!is_ascii_digit(d[k as int]));
                return None;
            },
            Some(v) => {
                acc = acc * 10 + v;
                assert(d.take(k + 1).last() == d[k as int]);
                assert(acc == digits_value(d.take(k + 1)));
                assert(all_digits(d.take(k + 1))) by {
                    assert forall|j: int| 0 <= j < k + 1 implies is_ascii_digit(#[trigger] d.take(k + 1)[j]) by {
                        if j < k {
                            assert(d.take(k + 1)[j] == d.take(k as int)[j]);
                        }
                    }
                }
                if acc > bound {
                    proof {
                        if all_digits(d) {
                            lemma_digits_value_prefix(d, k + 1);
                        }
                    }
                    return None;
                }
            },
        }
        i += 1;
    }
    assert(d.take(d.len() as int) =~= d);
    Some(acc)
}

/// `s.parse::<u32>().ok()`.
pub fn parse_u32_str(s: &str) -> (res: Option<u32>)
    ensures
        res == parse_u32(s@),
{
    let c = chars_of(s);
    let start: usize = if c.len() > 0 && c[0] == '+' { 1 } else { 0 };
    assert(unsigned_digits(s@) =~= c@.skip(start as int));
    match digits_from(&c, start, 0xffff_ffff) {
        Some(v) => Some(v as u32),
        None => None,
    }
}

/// `s.parse::<i32>().ok()`: an optional sign, then one or more ASCII
/// digits whose signed value fits in an `i32`.
pub open spec fn parse_i32(s: Seq<char>) -> Option<i32> {
    if s.len() > 0 && s[0] == '-' {
        let d = s.skip(1);
        if d.len() > 0 && all_digits(d) && digits_value(d) <= 0x8000_0000 {
            Some((0 - digits_value(d)) as i32)
        } else {
            None
        }
    } else {
        let d = unsigned_digits(s);
        if d.len() > 0 && all_digits(d) && digits_value(d) <= i32::MAX {
            Some(digits_value(d) as i32)
        } else {
            None
        }
    }
}

/// `s.parse::<i32>().ok()`.
pub fn parse_i32_str(s: &str) -> (res: Option<i32>)
    ensures
        res == parse_i32(s@),
{
    let c = chars_of(s);
    if c.len() > 0 && c[0] == '-' {
        match digits_from(&c, 1, 0x8000_0000) {
            Some(v) => {
                let m: i64 = 0 - (v as i64);
                Some(m as i32)
            },
            None => None,
        }
    } else {
        let start: usize = if c.len() > 0 && c[0] == '+' { 1 } else { 0 };
        assert(unsigned_digits(s@) =~= c@.skip(start as int));
        match digits_from(&c, start, 0x7fff_ffff) {
            Some(v) => Some(v as i32),
            None => None,
        }
    }
}

proof fn lemma_digit_char(v: nat)
    requires
        v < 10,
    ensures
        is_ascii_digit(digit_char(v)),
        digit_char(v) as int - '0' as int == v,
{
}

/// The decimal text of a count reads back as that count.
pub proof fn lemma_parse_decimal(n: nat)
    requires
        n <= u32::MAX,
    ensures
        parse_u32(decimal(n)) == Some(n as u32),
    decreases n,
{
    lemma_decimal_digits(n);
    let d = decimal(n);
    assert(d[0] != '+') by {
        assert(is_ascii_digit(d[0]));
    }
    assert(unsigned_digits(d) == d);
}

proof fn lemma_decimal_digits(n: nat)
    ensures
        decimal(n).len() > 0,
        all_digits(decimal(n)),
        digits_value(decimal(n)) == n,
    decreases n,
{
    lemma_digit_char(n % 10);
    if n >= 10 {
        lemma_decimal_digits(n / 10);
        let d = decimal(n);
        assert(d.drop_last() =~= decimal(n / 10));
        assert(d.last() == digit_char(n % 10));
        assert(digits_value(d) == digits_value(decimal(n / 10)) * 10 + (n % 10));
        assert((n / 10) * 10 + n % 10 == n);
        assert forall|i: int| 0 <= i < d.len() implies is_ascii_digit(#[trigger] d[i]) by {
            if i < d.len() - 1 {
                assert(d[i] == decimal(n / 10)[i]);
            }
        }
    } else {
        assert(decimal(n).drop_last() =~= Seq::<char>::empty());
        assert(digits_value(decimal(n).drop_last()) == 0);
    }
}

// ---------------------------------------------------------------------------
// The counter protocol
// ---------------------------------------------------------------------------

/// The counter a stored value stands for: its number, or zero when there is
/// no value or it does not read as a `u32`.
pub open spec fn stored_count(stored: Option<Seq<char>>) -> nat {
    match stored {
        Some(v) => match parse_u32(v) {
            Some(n) => n as nat,
            None => 0,
        },
        None => 0,
    }
}

/// The outcome of one check.
pub enum RateLimitStep {
    /// The limit is reached; nothing is written.
    Reject,
    /// The request is admitted; `new_count` is written back.
    Admit { new_count: u32 },
}

/// What a check decides for the stored value and the limit.
pub open spec fn rate_limit_step(stored: Option<Seq<char>>, max_requests: u32) -> RateLimitStep {
    if stored_count(stored) >= max_requests {
        RateLimitStep::Reject
    } else {
        RateLimitStep::Admit { new_count: (stored_count(stored) + 1) as u32 }
    }
}

pub open spec fn opt_view(stored: Option<&str>) -> Option<Seq<char>> {
    match stored {
        Some(s) => Some(s@),
        None => None,
    }
}

/// The cache key of a rate-limited key: `ratelimit:<key>`.
pub fn rate_limit_key(key: &str) -> (res: String)
    ensures
        res@ == "ratelimit:"@ + key@,
{
    let mut k = String::new();
    push_str(&mut k, "ratelimit:");
    push_str(&mut k, key);
    k
}

/// The current counter of a key, from its stored value.
pub fn rate_limit_count(stored: Option<&str>) -> (res: u32)
    ensures
        res == stored_count(opt_view(stored)),
{
    match stored {
        Some(v) => match parse_u32_str(v) {
            Some(n) => n,
            None => 0,
        },
        None => 0,
    }
}

/// One rate-limit check: admit and count up while the stored counter is
/// below `max_requests`, reject otherwise.
pub fn check_rate_limit(stored: Option<&str>, max_requests: u32) -> (res: RateLimitStep)
    ensures
        res == rate_limit_step(opt_view(stored), max_requests),
{
    let current = rate_limit_count(stored);
    if current >= max_requests {
        RateLimitStep::Reject
    } else {
        RateLimitStep::Admit { new_count: current + 1 }
    }
}

/// The text written back for a counter.
pub fn count_text(n: u32) -> (res: String)
    ensures
        res@ == decimal(n as nat),
{
    u64_to_string(n as u64)
}

/// The stored value after a check.
pub open spec fn stored_after(stored: Option<Seq<char>>, max_requests: u32) -> Option<Seq<char>> {
    match rate_limit_step(stored, max_requests) {
        RateLimitStep::Reject => stored,
        RateLimitStep::Admit { new_count } => Some(decimal(new_count as nat)),
    }
}

/// The stored value and the number of admitted requests after `k` checks
/// within one window, starting from `stored`.
pub open spec fn run_checks(stored: Option<Seq<char>>, max_requests: u32, k: nat) -> (Option<Seq<char>>, nat)
    decreases k,
{
    if k == 0 {
        (stored, 0)
    } else {
        let (s, admitted) = run_checks(stored, max_requests, (k - 1) as nat);
        let extra: nat = if rate_limit_step(s, max_requests) is Admit { 1 } else { 0 };
        (stored_after(s, max_requests), admitted + extra)
    }
}

proof fn lemma_run_checks(max_requests: u32, k: nat)
    ensures
        run_checks(None, max_requests, k).1 == if k <= max_requests { k } else { max_requests as nat },
        stored_count(run_checks(None, max_requests, k).0) == if k <= max_requests { k } else { max_requests as nat },
    decreases k,
{
    if k > 0 {
        lemma_run_checks(max_requests, (k - 1) as nat);
        let s = run_checks(None, max_requests, (k - 1) as nat).0;
        if stored_count(s) < max_requests {
            lemma_parse_decimal(stored_count(s) + 1);
        }
    }
}

/// Within one window, starting from no counter, exactly the first
/// `max_requests` checks are admitted: `k` checks admit `min(k, max_requests)`
/// requests, and the stored counter never exceeds the limit.
pub proof fn law_window_admits_limit(max_requests: u32, k: nat)
    ensures
        run_checks(None, max_requests, k).1 == if k <= max_requests { k } else { max_requests as nat },
        stored_count(run_checks(None, max_requests, k).0) <= max_requests,
{
    lemma_run_checks(max_requests, k);
}

// ---------------------------------------------------------------------------
// Login attempts
// ---------------------------------------------------------------------------

/// Refusal by the security layer.
#[derive(Debug)]
pub enum SecurityError {
    RateLimited,
}

/// Failed login attempts allowed per client address within one window.
pub const LOGIN_ATTEMPT_LIMIT: i32 = 5;

/// The window of the login counter, in seconds.
pub const LOGIN_WINDOW_SECS: i64 = 300;

/// The cache key of the login counter of a client address:
/// `ratelimit:login:<ip>`.
pub fn login_rate_key(ip: &str) -> (res: String)
    ensures
        res@ == "ratelimit:login:"@ + ip@,
{
    let mut k = String::new();
    push_str(&mut k, "ratelimit:login:");
    push_str(&mut k, ip);
    k
}

/// Whether one more login attempt may proceed given the attempts counted so
/// far in the window (an unreadable counter counts as zero).
pub fn check_login_attempts(count: i32) -> (res: Result<(), SecurityError>)
    ensures
        res is Ok <==> count < LOGIN_ATTEMPT_LIMIT,
{
    if count >= LOGIN_ATTEMPT_LIMIT {
        Err(SecurityError::RateLimited)
    } else {
        Ok(())
    }
}

/// The login counter a stored value stands for, as the cache client reads
/// it into an `i32`: the number the text spells, or zero when there is no
/// value or the text is not an `i32`.
pub open spec fn login_counter(stored: Option<Seq<char>>) -> int {
    match stored {
        Some(v) => match parse_i32(v) {
            Some(n) => n as int,
            None => 0,
        },
        None => 0,
    }
}

/// What a login check does after reading the counter.
#[derive(Debug, PartialEq, Eq, Structural)]
pub enum LoginStep {
    /// Five or more attempts are counted: the attempt is refused and the
    /// counter is left as it is.
    Refuse,
    /// The attempt proceeds: the counter is incremented and its expiry set
    /// to the window.
    Increment,
}

/// The step a login check takes for the counter read under the address's
/// key (`None` where nothing could be read).
pub open spec fn login_step(stored: Option<Seq<char>>) -> LoginStep {
    if login_counter(stored) >= LOGIN_ATTEMPT_LIMIT {
        LoginStep::Refuse
    } else {
        LoginStep::Increment
    }
}

/// One login check of a client address, from the value read under its key.
pub fn login_check(stored: Option<&str>) -> (res: LoginStep)
    ensures
        res == login_step(opt_view(stored)),
{
    let count: i32 = match stored {
        Some(v) => match parse_i32_str(v) {
            Some(n) => n,
            None => 0,
        },
        None => 0,
    };
    match check_login_attempts(count) {
        Ok(()) => LoginStep::Increment,
        Err(_) => LoginStep::Refuse,
    }
}

/// The answer to a login attempt that proceeded, from whether the
/// increment and the expiry were stored: any failure refuses the attempt.
pub fn login_outcome(incremented: bool, expiry_set: bool) -> (res: Result<(), SecurityError>)
    ensures
        res is Ok <==> incremented && expiry_set,
{
    if incremented && expiry_set {
        Ok(())
    } else {
        Err(SecurityError::RateLimited)
    }
}

/// The stored counter after a login check: an increment turns the counter
/// the cache itself wrote (the decimal text of `n`, or nothing for zero)
/// into that of `n + 1`.
pub open spec fn login_stored_after(stored: Option<Seq<char>>) -> Option<Seq<char>> {
    match login_step(stored) {
        LoginStep::Refuse => stored,
        LoginStep::Increment => Some(decimal((login_counter(stored) + 1) as nat)),
    }
}

/// The stored counter and the number of attempts that proceeded after `k`
/// login checks of one address within one window, from no counter.
pub open spec fn login_run(k: nat) -> (Option<Seq<char>>, nat)
    decreases k,
{
    if k == 0 {
        (None, 0)
    } else {
        let (s, passed) = login_run((k - 1) as nat);
        let extra: nat = if login_step(s) is Increment { 1 } else { 0 };
        (login_stored_after(s), passed + extra)
    }
}

proof fn lemma_parse_i32_decimal(n: nat)
    requires
        n <= i32::MAX,
    ensures
        parse_i32(decimal(n)) == Some(n as i32),
{
    lemma_decimal_digits(n);
    let d = decimal(n);
    assert(is_ascii_digit(d[0]));
    assert(unsigned_digits(d) == d);
}

proof fn lemma_login_run(k: nat)
    ensures
        login_run(k).1 == if k <= 5 { k } else { 5 },
        login_counter(login_run(k).0) == if k <= 5 { k } else { 5 },
    decreases k,
{
    if k > 0 {
        lemma_login_run((k - 1) as nat);
        let s = login_run((k - 1) as nat).0;
        if login_counter(s) < 5 {
            lemma_parse_i32_decimal((login_counter(s) + 1) as nat);
        }
    }
}

/// Within one window at most five login attempts of an address proceed:
/// from no counter, `k` checks let `min(k, 5)` attempts through, and every
/// check after the fifth one that proceeded is refused.
pub proof fn law_login_window(k: nat)
    ensures
        login_run(k).1 == if k <= 5 { k } else { 5 },
        k >= 5 ==> login_step(login_run(k).0) is Refuse,
{
    lemma_login_run(k);
}

/// Different addresses count under different keys.
pub proof fn law_login_keys_distinct(a: Seq<char>, b: Seq<char>)
    requires
        a != b,
    ensures
        "ratelimit:login:"@ + a != "ratelimit:login:"@ + b,
{
    let p = "ratelimit:login:"@;
    if p + a == p + b {
        assert((p + a).skip(p.len() as int) =~= a);
        assert((p + b).skip(p.len() as int) =~= b);
    }
}

} // verus!
