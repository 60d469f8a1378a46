use maangframe::passwords::hash_password;
use maangframe::web::{
    AboutTemplate, AccountRecord, AuthEvent, AuthStep, CsrfMiddleware, CsrfProtection, DashboardTemplate,
    HomeTemplate, LoginDecision, LoginForm, LoginTemplate, RequireAuth, RequireAuthMiddleware, SessionRecord,
    SignupForm, SignupStep, SignupTemplate, UserRecord, UsersTemplate, generate_session_id, login_decision,
    signed_in_redirect, signup_after_lookup, signup_start,
};

fn user(salt: &str, password: &str) -> UserRecord {
    UserRecord {
        id: "u1".to_string(),
        tenant_id: "t1".to_string(),
        email: "a@b.c".to_string(),
        password_hash: hash_password(password, salt),
        salt: salt.to_string(),
    }
}

fn form(password: &str) -> LoginForm {
    LoginForm { email: "a@b.c".to_string(), password: password.to_string(), csrf_token: "x".to_string() }
}

#[test]
fn login_with_right_password_opens_session() {
    match login_decision(&form("pw"), Some(user("salt", "pw"))) {
        LoginDecision::CreateSession { user_id, tenant_id } => {
            assert_eq!(user_id, "u1");
            assert_eq!(tenant_id, "t1");
        }
        LoginDecision::ShowError(_) => panic!("expected a session"),
    }
}

#[test]
fn login_with_wrong_password_or_unknown_user_is_rejected_alike() {
    for found in [Some(user("salt", "pw")), None] {
        match login_decision(&form("nope"), found) {
            LoginDecision::ShowError(m) => assert_eq!(m, "Invalid email or password"),
            LoginDecision::CreateSession { .. } => panic!("expected an error"),
        }
    }
}

#[test]
fn signed_in_redirect_sets_cookie() {
    let r = signed_in_redirect("abc");
    assert_eq!(r.location, "/admin/dashboard");
    assert_eq!(r.set_cookie.unwrap(), "session_id=abc; Path=/; HttpOnly; SameSite=Strict; Secure");
}

#[test]
fn session_ids_are_uuid_v4() {
    let id = generate_session_id();
    assert_eq!(id.len(), 36);
    assert_eq!(&id[14..15], "4");
    assert_ne!(id, generate_session_id());
}

fn signup(p: &str, c: &str) -> SignupForm {
    SignupForm {
        email: "new@x.io".to_string(),
        password: p.to_string(),
        password_confirm: c.to_string(),
        csrf_token: "t".to_string(),
    }
}

#[test]
fn signup_rejects_mismatched_passwords_first() {
    match signup_start(&signup("a", "b")) {
        SignupStep::ShowError(m) => assert_eq!(m, "Passwords do not match"),
        _ => panic!("expected an error"),
    }
    match signup_start(&signup("a", "a")) {
        SignupStep::LookUpEmail(e) => assert_eq!(e, "new@x.io"),
        _ => panic!("expected a lookup"),
    }
}

#[test]
fn signup_rejects_registered_address() {
    match signup_after_lookup(&signup("a", "a"), true) {
        SignupStep::ShowError(m) => assert_eq!(m, "Email already registered"),
        _ => panic!("expected an error"),
    }
}

#[test]
fn signup_creates_user_with_salted_hash() {
    match signup_after_lookup(&signup("secret", "secret"), false) {
        SignupStep::CreateUser(u) => {
            assert_eq!(u.tenant_id, "00000000-0000-0000-0000-000000000001");
            assert_eq!(u.email, "new@x.io");
            assert_eq!(u.salt.len(), 64);
            assert_eq!(u.password_hash, hash_password("secret", &u.salt));
        }
        _ => panic!("expected a new user"),
    }
}

#[test]
fn auth_guard_redirects_without_cookie_or_state() {
    let s = RequireAuthMiddleware::<()>::next_step(AuthEvent::Arrived { session_cookie: None, has_state: true });
    assert!(matches!(s, AuthStep::RedirectToLogin));
    let s = RequireAuthMiddleware::<()>::next_step(AuthEvent::Arrived {
        session_cookie: Some("s1".to_string()),
        has_state: false,
    });
    assert!(matches!(s, AuthStep::RedirectToLogin));
}

#[test]
fn auth_guard_walks_session_then_user() {
    let s = RequireAuthMiddleware::<()>::next_step(AuthEvent::Arrived {
        session_cookie: Some("s1".to_string()),
        has_state: true,
    });
    assert!(matches!(s, AuthStep::FetchSession(ref id) if id == "s1"));
    let s = RequireAuthMiddleware::<()>::next_step(AuthEvent::SessionFetched(Ok(Some(SessionRecord {
        id: "s1".to_string(),
        user_id: "u9".to_string(),
    }))));
    assert!(matches!(s, AuthStep::FetchUser { ref session_id, ref user_id } if session_id == "s1" && user_id == "u9"));
    let s = RequireAuthMiddleware::<()>::next_step(AuthEvent::UserFetched {
        session_id: "s1".to_string(),
        user: Ok(Some(AccountRecord { id: "u9".to_string(), tenant_id: "t".to_string(), email: "e@x".to_string() })),
    });
    match s {
        AuthStep::Proceed(a) => {
            assert_eq!(a.session_id, "s1");
            assert_eq!(a.user_id, "u9");
            assert_eq!(a.tenant_id, "t");
            assert_eq!(a.user_email, "e@x");
        }
        _ => panic!("expected to proceed"),
    }
}

#[test]
fn auth_guard_redirects_on_failed_lookups() {
    for r in [Ok(None), Err("down".to_string())] {
        let s = RequireAuthMiddleware::<()>::next_step(AuthEvent::SessionFetched(r));
        assert!(matches!(s, AuthStep::RedirectToLogin));
    }
    for r in [Ok(None), Err("db".to_string())] {
        let s = RequireAuthMiddleware::<()>::next_step(AuthEvent::UserFetched { session_id: "s".to_string(), user: r });
        assert!(matches!(s, AuthStep::RedirectToLogin));
    }
}

#[test]
fn transforms_wrap_the_service() {
    assert_eq!(RequireAuth.new_transform(7u8).service, 7);
    assert_eq!(CsrfProtection.new_transform("svc").service, "svc");
}

#[test]
fn csrf_screens_state_changing_requests_outside_assets() {
    assert!(CsrfMiddleware::<()>::requires_validation("POST", "/login"));
    assert!(CsrfMiddleware::<()>::requires_validation("DELETE", "/admin/x"));
    assert!(CsrfMiddleware::<()>::requires_validation("PATCH", "/"));
    assert!(CsrfMiddleware::<()>::requires_validation("PUT", "/a"));
    assert!(!CsrfMiddleware::<()>::requires_validation("GET", "/login"));
    assert!(!CsrfMiddleware::<()>::requires_validation("post", "/login"));
    assert!(!CsrfMiddleware::<()>::requires_validation("POST", "/static/app.css"));
    assert!(!CsrfMiddleware::<()>::requires_validation("POST", "/assets"));
}

#[test]
fn page_models_of_the_site() {
    let h = HomeTemplate::site();
    assert_eq!(h.tenant_name, "MaangFrame");
    assert_eq!(h.tagline, "Production-grade SaaS Framework");
    assert_eq!(h.background_video, "/assets/backgrounds/background.mp4");
    assert_eq!(AboutTemplate::site().description, "Built with Rust for maximum performance and security");
    let l = LoginTemplate::site("tok".to_string(), "");
    assert_eq!((l.tenant_name.as_str(), l.csrf_token.as_str(), l.error.as_str()), ("MaangFrame", "tok", ""));
    let s = SignupTemplate::site("t2".to_string(), "Passwords do not match");
    assert_eq!(s.error, "Passwords do not match");
    let d = DashboardTemplate::site(3, 4);
    assert_eq!((d.product_count, d.service_count), (3, 4));
    assert_eq!(d.user_email, "admin@maangframe.com");
    assert_eq!(UsersTemplate::site().user_email, "admin@maangframe.com");
}
