use maangframe::sessions::{SessionError, new_session_token, validate_session_token, ROTATION_OVERLAP_SECS};

#[test]
fn new_tokens_validate() {
    for _ in 0..20 {
        let t = new_session_token();
        assert_eq!(t.len(), 32);
        assert!(t.chars().all(|c| c.is_ascii_alphanumeric()));
        assert!(validate_session_token(&t).is_ok());
    }
    assert_eq!(ROTATION_OVERLAP_SECS, 30);
}

#[test]
fn malformed_tokens_are_invalid() {
    assert!(matches!(validate_session_token("short"), Err(SessionError::Invalid)));
    assert!(matches!(validate_session_token("abcdefghijklmnopqrstuvwxyz01234-"), Err(SessionError::Invalid)));
    // The length counts bytes: 32 characters of two bytes each are too long,
    // 16 of them are exactly 32 bytes of Unicode letters and pass.
    assert!(validate_session_token("ééééééééééééééééabcdefghijklmnop").is_err());
    assert!(validate_session_token("éééééééééééééééé").is_ok());
    assert!(validate_session_token("abcdefghijklmnopqrstuvwxyz012345").is_ok());
}
