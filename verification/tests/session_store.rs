use maangframe::sessions::{
    Session, SessionError, SessionStore, build_session_cookie, session_key, session_ttl_secs,
};

fn session(id: &str, expires_at: i64) -> Session {
    Session {
        id: id.to_string(),
        user_id: "u".to_string(),
        email: "e@x".to_string(),
        is_admin: false,
        created_at: 0,
        expires_at,
    }
}

#[test]
fn read_back_what_was_stored() {
    let mut store = SessionStore::new();
    let id = store.create(session("s1", 100));
    assert_eq!(id, "s1");
    let got = store.get_at("s1", 50).unwrap();
    assert_eq!(got.expires_at, 100);
    assert!(matches!(store.get_at("other", 50), Err(SessionError::NotFound)));
}

#[test]
fn expired_sessions_are_reported_then_cleaned() {
    let mut store = SessionStore::new();
    store.create(session("old", 10));
    store.create(session("new", 1000));
    assert!(matches!(store.get_at("old", 10), Err(SessionError::Expired)));
    store.cleanup_expired_at(10);
    assert!(matches!(store.get_at("old", 10), Err(SessionError::NotFound)));
    assert!(store.get_at("new", 10).is_ok());
    assert_eq!(store.len(), 1);
}

#[test]
fn create_replaces_same_id_and_delete_removes() {
    let mut store = SessionStore::new();
    store.create(session("s", 10));
    store.create(session("s", 20));
    assert_eq!(store.len(), 1);
    assert_eq!(store.get_at("s", 0).unwrap().expires_at, 20);
    assert!(store.delete("s").is_ok());
    assert!(matches!(store.get_at("s", 0), Err(SessionError::NotFound)));
}

#[test]
fn new_sessions_live_for_their_ttl() {
    let s = Session::new("u1".to_string(), "a@b".to_string(), true, 3600);
    assert_eq!(s.expires_at - s.created_at, 3600);
    assert_eq!(s.id.len(), 36);
    assert!(!s.is_expired_at(s.created_at));
    assert!(s.is_expired_at(s.expires_at));
    let d = s.duplicate();
    assert_eq!(d.id, s.id);
}

#[test]
fn cache_names_and_lifetimes() {
    assert_eq!(session_key("abc"), "session:abc");
    assert_eq!(session_ttl_secs(100, 160), 60);
    assert_eq!(session_ttl_secs(100, 99), 3600);
    assert_eq!(build_session_cookie("xyz"), "session_id=xyz; Path=/; HttpOnly; SameSite=Strict; Secure");
}
