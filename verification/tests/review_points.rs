use maangframe::billing::{
    handle_event, webhook_effects, webhook_reply, InvoiceFields, LabelRef, StripeError, SubscriptionFields,
    WebhookAction, WebhookEffect, WebhookReply,
};
use maangframe::crypto::hmac_sha256_bytes;
use maangframe::csrf::CsrfError;
use maangframe::hexenc::encode_hex;
use maangframe::jobs::{execute_job, worker_step, Job, JobError, JobType, WorkerAction};
use maangframe::labels::{label_list_line, LabelStatus, Storage};
use maangframe::passwords::{hash_password, PasswordHasher};
use maangframe::provision::{get_available_port, sanitize_namespace};
use maangframe::ratelimit::{count_text, login_check, login_outcome, parse_i32_str, LoginStep};
use maangframe::sessions::{build_session_cookie, rotation_plan, validate_session_token, SessionError};
use maangframe::snapshots::{snapshot_now, snapshot_stamp, stamp_format};
use maangframe::storage::{new_media_record, sanitize_filename, upload_field};
use maangframe::web::CsrfMiddleware;
use maangframe::webhook_signature::verify_signature;

fn invoice() -> Result<InvoiceFields, String> {
    Ok(InvoiceFields { id: "in_1".into(), customer: "cus_1".into(), subscription: None, amount_paid: 0, amount_due: 1000 })
}

fn no_subscription() -> Result<SubscriptionFields, String> {
    Err("missing field `status`".to_string())
}

#[test]
fn stamps_have_their_shape() {
    assert_eq!(stamp_format(), "[year]-[month]-[day]_[hour]-[minute]");
    let s = snapshot_stamp().unwrap();
    assert_eq!(s.len(), 16);
    let b = s.as_bytes();
    assert_eq!((b[4], b[7], b[10], b[13]), (b'-', b'-', b'_', b'-'));
    let (stamp, plan) = snapshot_now("/home/u").unwrap();
    assert_eq!(plan.dest, format!("/home/u/DevBackups/maang_backups/maang_{stamp}"));
}

#[test]
fn hash_is_sixty_four_characters() {
    assert_eq!(hash_password("x", "y").len(), 64);
}

#[test]
fn ascii_symbols_are_not_alphanumeric() {
    assert_eq!(sanitize_filename("a/b c-d.txt"), "a_b_c-d.txt");
    assert!(validate_session_token("abcdefghijklmnopqrstuvwxyz01234/").is_err());
    assert!(validate_session_token("abcdefghijklmnopqrstuvwxyz01234 ").is_err());
}

#[test]
fn webhook_dispatch() {
    match handle_event("invoice.payment_failed", invoice(), no_subscription()) {
        Ok(WebhookAction::PaymentFailed { customer_id, invoice_id, amount, subscription_id }) => {
            assert_eq!((customer_id.as_str(), invoice_id.as_str(), amount), ("cus_1", "in_1", 1000));
            assert!(subscription_id.is_none());
        }
        _ => panic!("expected a failed payment"),
    }
    assert!(matches!(handle_event("charge.refunded", invoice(), no_subscription()), Ok(WebhookAction::Ignore)));
    match handle_event("customer.subscription.updated", invoice(), no_subscription()) {
        Err(StripeError::MissingField(m)) => assert_eq!(m, "subscription: missing field `status`"),
        _ => panic!("expected a missing field"),
    }
    let sub = Ok(SubscriptionFields { id: "sub_1".into(), customer: "cus_2".into(), status: "active".into() });
    assert!(matches!(
        handle_event("customer.subscription.deleted", Err("x".into()), sub),
        Ok(WebhookAction::SubscriptionDeleted { ref subscription_id, .. }) if subscription_id == "sub_1"
    ));
    assert_eq!(StripeError::MissingField("id".into()).message(), "Missing field: id");
}

#[test]
fn webhook_answers() {
    let body = r#"{"id":"evt_1","type":"customer.created","data":{"object":{}}}"#;
    let good = "t=1,v1=82e0701232fdf6665bc27bd360582e135f0f09c98e89173a9140617205417ebb";
    assert!(matches!(webhook_reply(None, "whsec_test", Ok(body), Ok("e".into()), Ok(())), WebhookReply::BadRequest(ref m) if m == "Missing signature"));
    assert!(matches!(webhook_reply(Some(good), "whsec_test", Err("utf8".into()), Ok("e".into()), Ok(())), WebhookReply::BadRequest(ref m) if m == "utf8"));
    assert!(matches!(
        webhook_reply(Some(good), "whsec_test", Ok(body), Err("eof".into()), Ok(())),
        WebhookReply::BadRequest(ref m) if m == "Webhook verification failed: eof"
    ));
    assert!(matches!(webhook_reply(Some(good), "whsec_test", Ok(body), Ok("e".into()), Err("db".into())), WebhookReply::ServerError(ref m) if m == "db"));
    assert!(matches!(webhook_reply(Some(good), "whsec_test", Ok(body), Ok("evt_1".into()), Ok(())), WebhookReply::Received { ref event_id } if event_id == "evt_1"));
    assert!(matches!(
        webhook_reply(Some("t=1,v1=00"), "whsec_test", Ok(body), Ok("evt_1".into()), Ok(())),
        WebhookReply::BadRequest(ref m) if m == "Webhook verification failed: signature does not match the payload"
    ));
    assert!(matches!(
        webhook_reply(Some(good), "whsec_other", Ok(body), Ok("evt_1".into()), Ok(())),
        WebhookReply::BadRequest(_)
    ));
}

#[test]
fn upload_defaults_and_record() {
    assert_eq!(upload_field(None, None), ("unnamed".to_string(), "application/octet-stream".to_string()));
    assert_eq!(upload_field(Some("a.png"), Some("image/png")), ("a.png".to_string(), "image/png".to_string()));
    let m = new_media_record("wl1", "a.png", "image/png", 12, "/media/wl1/1_a.png");
    assert_eq!(m.white_label_id, "white_labels:wl1");
    assert_eq!(m.media_type, "image");
    assert_eq!(m.size_bytes, 12);
}

#[test]
fn ports_follow_the_domain() {
    let p = get_available_port("shop.io").unwrap();
    assert!((9000..=9999).contains(&p));
    assert_eq!(p, get_available_port("shop.io").unwrap());
}

#[test]
fn sixth_login_in_a_window_is_refused() {
    let mut counter: u32 = 0;
    let mut stored: Option<String> = None;
    let mut results = vec![];
    for _ in 0..6 {
        match login_check(stored.as_deref()) {
            LoginStep::Increment => {
                results.push(true);
                counter += 1;
                stored = Some(count_text(counter));
            }
            LoginStep::Refuse => results.push(false),
        }
    }
    assert_eq!(results, vec![true, true, true, true, true, false]);
}

#[test]
fn login_counter_is_read_as_i32() {
    assert_eq!(login_check(Some("4")), LoginStep::Increment);
    assert_eq!(login_check(Some("5")), LoginStep::Refuse);
    assert_eq!(login_check(Some("+7")), LoginStep::Refuse);
    assert_eq!(login_check(Some("-3")), LoginStep::Increment);
    assert_eq!(login_check(Some("3000000000")), LoginStep::Increment);
    assert_eq!(login_check(Some("2147483647")), LoginStep::Refuse);
    assert_eq!(login_check(Some("x")), LoginStep::Increment);
    assert_eq!(login_check(None), LoginStep::Increment);
    assert_eq!(parse_i32_str("-2147483648"), Some(i32::MIN));
    assert_eq!(parse_i32_str("-2147483649"), None);
    assert_eq!(parse_i32_str("-"), None);
    assert_eq!(parse_i32_str("-+1"), None);
    assert_eq!(parse_i32_str("+12"), Some(12));
    assert!(login_outcome(true, true).is_ok());
    assert!(login_outcome(true, false).is_err());
    assert!(login_outcome(false, true).is_err());
}

#[test]
fn csrf_screening() {
    assert!(CsrfMiddleware::<()>::screen("GET", "/x", None, Ok(None)).is_ok());
    assert!(CsrfMiddleware::<()>::screen("POST", "/static/a.css", None, Ok(None)).is_ok());
    assert!(matches!(CsrfMiddleware::<()>::screen("POST", "/login", None, Ok(Some("t".into()))), Err(CsrfError::TokenMissing)));
    assert!(CsrfMiddleware::<()>::screen("POST", "/login", Some("t"), Ok(Some("t".into()))).is_ok());
    assert!(matches!(CsrfMiddleware::<()>::screen("POST", "/login", Some("u"), Ok(Some("t".into()))), Err(CsrfError::TokenInvalid)));
    assert!(matches!(CsrfMiddleware::<()>::screen("PUT", "/a", Some("u"), Ok(None)), Err(CsrfError::TokenMissing)));
}

#[test]
fn every_kind_of_job_executes() {
    let kinds = vec![
        (JobType::SendWelcomeEmail { domain: "a.io".into(), email: "x@a.io".into(), password: "p".into() }, 100),
        (JobType::ProcessStripeWebhook { event_id: "evt_1".into(), payload: "{}".into() }, 200),
        (JobType::ProvisionWhiteLabel { domain: "a.io".into(), white_label_id: "1".into() }, 1000),
        (JobType::DeleteWhiteLabel { domain: "a.io".into(), white_label_id: "1".into() }, 500),
        (JobType::CleanupExpiredSessions, 300),
        (JobType::BackupDatabases, 2000),
        (JobType::CheckOverduePayments, 400),
    ];
    for (kind, millis) in kinds {
        let job = Job::new(kind);
        assert_eq!(job.retry_count, 0);
        assert_eq!(job.max_retries, 3);
        assert!(job.created_at > 1_600_000_000);
        assert_eq!(execute_job(&job).unwrap(), millis);
    }
}

#[test]
fn worker_retries_three_times_then_parks() {
    let mut job = Job::new(JobType::BackupDatabases);
    let mut delays = vec![];
    let mut executions = 0;
    loop {
        executions += 1;
        match worker_step(job, &Err(JobError::ExecutionFailed("down".into()))) {
            WorkerAction::Requeue { job: next, delay_secs } => {
                delays.push((next.retry_count, delay_secs));
                job = next;
            }
            WorkerAction::Park { job: parked } => {
                assert_eq!(parked.retry_count, 3);
                break;
            }
            WorkerAction::Completed => panic!("a failed job is not completed"),
        }
    }
    assert_eq!(executions, 4);
    assert_eq!(delays, vec![(1, 2), (2, 4), (3, 8)]);
    let fresh = Job::new(JobType::CleanupExpiredSessions);
    assert!(matches!(worker_step(fresh, &Ok(300)), WorkerAction::Completed));
}

#[test]
fn namespace_of_ascii_domain_is_an_identifier() {
    let ns = sanitize_namespace("Big-Shop.Example.COM");
    assert_eq!(ns, "big_shop_example_com");
    assert!(!ns.contains('.') && !ns.contains('-'));
}

#[test]
fn argon2_hash_round_trip() {
    let h1 = PasswordHasher::hash("correct horse").unwrap();
    let h2 = PasswordHasher::hash("correct horse").unwrap();
    assert!(h1.starts_with("$argon2id$"));
    assert_ne!(h1, h2);
    assert_eq!(PasswordHasher::verify("correct horse", &h1).unwrap(), true);
    assert_eq!(PasswordHasher::verify("wrong horse", &h1).unwrap(), false);
    assert!(PasswordHasher::verify("correct horse", "not a phc string").is_err());
    assert!(PasswordHasher::hash("").is_ok());
}

#[test]
fn stripe_signature_header() {
    let body = r#"{"id":"evt_1","type":"customer.created","data":{"object":{}}}"#;
    let sig = "82e0701232fdf6665bc27bd360582e135f0f09c98e89173a9140617205417ebb";
    assert!(verify_signature("whsec_test", body, &format!("t=1,v1={}", sig)));
    assert!(verify_signature("whsec_test", body, &format!("t=1,v0=ab,v1=00,v1={}", sig)));
    assert!(verify_signature("whsec_test", body, &format!("v1={},t=1", sig)));
    assert!(!verify_signature("whsec_test", body, &format!("t=2,v1={}", sig)));
    assert!(!verify_signature("whsec_test", body, &format!("v1={}", sig)));
    assert!(!verify_signature("whsec_test", "{}", &format!("t=1,v1={}", sig)));
    assert!(!verify_signature("whsec_test", body, &format!("t=1,v1={}x", sig)));
    assert!(!verify_signature("whsec_test", body, ""));
}

#[test]
fn hmac_sha256_known_answers() {
    assert_eq!(
        encode_hex(&hmac_sha256_bytes(&[0x0b; 20], b"Hi There")),
        "b0344c61d8db38535ca8afceaf0bf12b881dc200c9833da726e9376c2e32cff7"
    );
    assert_eq!(
        encode_hex(&hmac_sha256_bytes(&[0xaa; 131], b"Test Using Larger Than Block-Size Key - Hash Key First")),
        "60e431591ee0b67f0d8a26aacbf5b77f8e0bc6213728c5140546040f0ee37f54"
    );
}

#[test]
fn webhook_records_receipt_before_any_label_change() {
    let paid = WebhookAction::PaymentSucceeded {
        customer_id: "cus_1".into(),
        invoice_id: "in_1".into(),
        amount: 1000,
        subscription_id: None,
    };
    let label = LabelRef { id: "wl_1".into(), domain: "shop.io".into() };
    let effects = webhook_effects("invoice.payment_succeeded", &paid, Some(&label), "10.00");
    assert_eq!(effects.len(), 4);
    match &effects[0] {
        WebhookEffect::LogActivity { label_id, action, description, admin_action } => {
            assert!(label_id.is_none());
            assert_eq!(action, "stripe_webhook_received");
            assert_eq!(description, "Webhook event: invoice.payment_succeeded");
            assert!(!admin_action);
        }
        _ => panic!("the receipt comes first"),
    }
    assert!(matches!(&effects[1], WebhookEffect::SetStatus { label_id, status: LabelStatus::White } if label_id == "wl_1"));
    assert!(matches!(&effects[2], WebhookEffect::Enqueue { job: JobType::SendPaymentSuccessEmail { domain, invoice_id } } if domain == "shop.io" && invoice_id == "in_1"));
    assert!(matches!(&effects[3], WebhookEffect::LogActivity { action, description, .. } if action == "payment_received" && description == "Payment succeeded: \u{20ac}10.00"));
    let unknown = webhook_effects("invoice.payment_succeeded", &paid, None, "10.00");
    assert_eq!(unknown.len(), 1);
    let cancelled = WebhookAction::SubscriptionDeleted { subscription_id: "sub_1".into(), customer_id: "cus_1".into() };
    let effects = webhook_effects("customer.subscription.deleted", &cancelled, Some(&label), "0.00");
    assert_eq!(effects.len(), 3);
    assert!(matches!(&effects[1], WebhookEffect::SetStatus { status: LabelStatus::Red, .. }));
    assert!(matches!(&effects[2], WebhookEffect::LogActivity { description, .. } if description == "Subscription cancelled"));
}

#[test]
fn admin_list_line() {
    let storage = Storage {
        images_bytes: 3 * 1_048_576,
        videos_bytes: 1_048_576,
        audio_bytes: 50 * 1_048_576,
        db_bytes: 524_288,
    };
    let line = label_list_line(
        "shop.io",
        LabelStatus::Gray,
        "2024-05-01T10:00:00Z",
        &storage,
    );
    assert_eq!(line, format!("{:<30} {:<10} {:<20} {} MB", "shop.io", "Gray", "2024-05-01", 4));
    let long = "a-very-long-domain-name-that-exceeds.example.com";
    let line = label_list_line(long, LabelStatus::Red, "", &storage);
    assert_eq!(line, format!("{:<30} {:<10} {:<20} {} MB", long, "Red", "", 4));
}

#[test]
fn session_rotation_moves_to_a_fresh_token() {
    let old = "A".repeat(32);
    let plan = rotation_plan(&old, 3600, Ok(Some("{\"user_id\":\"u1\"}".to_string()))).unwrap();
    assert_eq!(plan.new_token.len(), 32);
    assert!(validate_session_token(&plan.new_token).is_ok());
    assert_eq!(plan.new_key, format!("session:{}", plan.new_token));
    assert_eq!(plan.session_data, "{\"user_id\":\"u1\"}");
    assert_eq!(plan.ttl_secs, 3600);
    assert_eq!(plan.old_key, format!("session:{}", old));
    assert_eq!(plan.old_key_ttl_secs, 30);
    assert!(matches!(rotation_plan(&old, 3600, Ok(None)), Err(SessionError::NotFound)));
    assert!(matches!(rotation_plan(&old, 3600, Err(SessionError::StorageError("down".into()))), Err(SessionError::StorageError(ref m)) if m == "down"));
}

#[test]
fn session_cookie_reads_back() {
    let id = "0f8fad5b-d9cb-469f-a165-70867728950e";
    let cookie = build_session_cookie(id);
    let parts: Vec<&str> = cookie.split(';').map(|p| p.trim()).collect();
    let (name, value) = parts[0].split_once('=').unwrap();
    assert_eq!(name, "session_id");
    assert_eq!(value, id);
    assert_eq!(&parts[1..], &["Path=/", "HttpOnly", "SameSite=Strict", "Secure"]);
}
