use maangframe::csrf::{CsrfError, CsrfToken, check_stored_token, csrf_key, generate_token};
use maangframe::hexenc::encode_hex;
use maangframe::ratelimit::{
    RateLimitStep, SecurityError, check_login_attempts, check_rate_limit, count_text, login_rate_key, parse_u32_str,
    rate_limit_count, rate_limit_key,
};

#[test]
fn hex_encoding() {
    assert_eq!(encode_hex(&[0x00, 0xab, 0xff, 0x10]), "00abff10");
    assert_eq!(encode_hex(&[]), "");
}

#[test]
fn server_side_tokens() {
    let t = generate_token().unwrap();
    assert_eq!(t.len(), 64);
    assert_ne!(t, generate_token().unwrap());
    assert_eq!(csrf_key("s1"), "csrf:s1");
    assert!(check_stored_token(Ok(Some(t.clone())), &t).is_ok());
    assert!(matches!(check_stored_token(Ok(Some("other".to_string())), &t), Err(CsrfError::TokenInvalid)));
    assert!(matches!(check_stored_token(Ok(None), &t), Err(CsrfError::TokenMissing)));
    assert!(matches!(check_stored_token(Err("down".to_string()), &t), Err(CsrfError::ValidationFailed(ref m)) if m == "down"));
}

#[test]
fn session_bound_tokens_validate_only_for_their_session() {
    let t = CsrfToken::generate("session-1", "secret");
    assert!(CsrfToken::validate(&t, "session-1", "secret"));
    assert!(!CsrfToken::validate(&t, "session-2", "secret"));
    assert!(!CsrfToken::validate(&t, "session-1", "other"));
    let (nonce, mac) = t.split_once(':').unwrap();
    assert_eq!(nonce.len(), 16);
    assert_eq!(mac.len(), 64);
    assert!(!CsrfToken::validate("no-colon", "session-1", "secret"));
    assert!(!CsrfToken::validate(&format!("{}:x", t), "session-1", "secret"));
}

#[test]
fn counters() {
    assert_eq!(parse_u32_str("42"), Some(42));
    assert_eq!(parse_u32_str("4294967295"), Some(u32::MAX));
    assert_eq!(parse_u32_str("4294967296"), None);
    assert_eq!(parse_u32_str(""), None);
    assert_eq!(parse_u32_str("-1"), None);
    assert_eq!(rate_limit_count(Some("7")), 7);
    assert_eq!(rate_limit_count(Some("junk")), 0);
    assert_eq!(rate_limit_count(None), 0);
    assert_eq!(count_text(12), "12");
    assert_eq!(rate_limit_key("ip:1"), "ratelimit:ip:1");
}

#[test]
fn window_admits_exactly_the_limit() {
    let mut stored: Option<String> = None;
    let mut admitted = 0;
    for _ in 0..8 {
        match check_rate_limit(stored.as_deref(), 5) {
            RateLimitStep::Admit { new_count } => {
                admitted += 1;
                stored = Some(count_text(new_count));
            }
            RateLimitStep::Reject => {}
        }
    }
    assert_eq!(admitted, 5);
    assert_eq!(stored.as_deref(), Some("5"));
}

#[test]
fn login_attempts() {
    assert_eq!(login_rate_key("10.0.0.1"), "ratelimit:login:10.0.0.1");
    assert!(check_login_attempts(4).is_ok());
    assert!(matches!(check_login_attempts(5), Err(SecurityError::RateLimited)));
}
