use maangframe::accounts::{
    AccountRole, AccountStatus, admin_access, AdminAccess, build_user_update_query, parse_role, parse_status,
    role_db_text, site_domain, status_db_text,
};
use maangframe::billing::{EventKind, InvoiceFields, WebhookAction, classify_event, invoice_action, label_status_after};
use maangframe::content::{ProductUpdateFields, build_product_update_query, product_currency};
use maangframe::labels::LabelStatus;
use maangframe::provision::{
    djb2_hash, port_for, port_from_hash, sanitize_namespace, shared_namespace, tenant_namespace, tenant_root,
    tenant_service_name,
};
use maangframe::storage::{
    StorageConfig, StorageError, StorageService, detect_media_type, guess_mime_type, sanitize_filename,
};

#[test]
fn roles_and_states_round_trip() {
    for r in [AccountRole::Admin, AccountRole::User, AccountRole::Guest] {
        assert_eq!(parse_role(role_db_text(r)), r);
    }
    for s in [AccountStatus::Active, AccountStatus::Inactive, AccountStatus::Suspended] {
        assert_eq!(parse_status(status_db_text(s)), s);
    }
    assert_eq!(parse_role("superuser"), AccountRole::User);
    assert_eq!(parse_status(""), AccountStatus::Active);
}

#[test]
fn update_statements() {
    assert_eq!(build_user_update_query(false, false, false), "UPDATE $user_id SET updated_at = time::now()");
    assert_eq!(
        build_user_update_query(true, false, true),
        "UPDATE $user_id SET updated_at = time::now(), email = $email, is_active = $is_active"
    );
    let f = ProductUpdateFields { title: true, description: false, price: true, currency: false, image_url: false, is_published: true };
    assert_eq!(
        build_product_update_query(&f),
        "UPDATE $id SET updated_at = time::now(), title = $title, price = $price, is_published = $is_published WHERE white_label_id = $white_label_id"
    );
    assert_eq!(product_currency(None), "EUR");
    assert_eq!(product_currency(Some("SEK")), "SEK");
}

#[test]
fn host_and_admin_access() {
    assert_eq!(site_domain(Some("shop.io")), "shop.io");
    assert_eq!(site_domain(None), "localhost");
    assert!(matches!(admin_access(Some("s"), true), AdminAccess::CheckSession(ref id) if id == "s"));
    assert!(matches!(admin_access(Some("s"), false), AdminAccess::RedirectToLogin));
    assert!(matches!(admin_access(None, true), AdminAccess::RedirectToLogin));
}

#[test]
fn webhook_events() {
    assert_eq!(classify_event("invoice.payment_succeeded"), EventKind::PaymentSucceeded);
    assert_eq!(classify_event("customer.subscription.deleted"), EventKind::SubscriptionDeleted);
    assert_eq!(classify_event("charge.refunded"), EventKind::Other);
    let inv = InvoiceFields { id: "in_1".into(), customer: "cus_1".into(), subscription: None, amount_paid: 1000, amount_due: 1500 };
    match invoice_action(EventKind::PaymentFailed, inv) {
        WebhookAction::PaymentFailed { amount, customer_id, .. } => {
            assert_eq!(amount, 1500);
            assert_eq!(customer_id, "cus_1");
        }
        _ => panic!(),
    }
    let a = WebhookAction::SubscriptionDeleted { subscription_id: "s".into(), customer_id: "c".into() };
    assert_eq!(label_status_after(&a), Some(LabelStatus::Red));
    assert_eq!(label_status_after(&WebhookAction::Ignore), None);
}

#[test]
fn tenant_names_and_ports() {
    assert_eq!(djb2_hash(""), 5381);
    assert_eq!(djb2_hash("a"), 177670);
    assert_eq!(djb2_hash("example.com"), 3653638078);
    assert_eq!(port_for("a"), 16598);
    assert_eq!(port_for("example.com"), 16078);
    assert_eq!(port_from_hash(123456), 9456);
    assert_eq!(sanitize_namespace("My-Shop.Example.com"), "my_shop_example_com");
    assert_eq!(tenant_namespace("a.b"), "tenant_a_b");
    assert_eq!(tenant_service_name("a-b.c"), "lillpepe-a_b_c");
    assert_eq!(shared_namespace("a.b-c"), "a_b-c");
    assert_eq!(tenant_root("a.io"), "/srv/lillpepe/tenants/a.io");
}

#[test]
fn uploads() {
    let svc = StorageService::new(StorageConfig::default());
    match svc.plan_upload("wl1", "my photo!.JPG", "image/jpeg", 10, 1700000000) {
        Ok(u) => {
            assert_eq!(u.unique_filename, "1700000000_my_photo_.JPG");
            assert_eq!(u.url, "/media/wl1/1700000000_my_photo_.JPG");
        }
        Err(_) => panic!(),
    }
    assert!(matches!(svc.plan_upload("w", "a.exe", "application/x-msdownload", 10, 0), Err(StorageError::InvalidFileType(_))));
    assert!(matches!(svc.plan_upload("w", "a.jpg", "image/jpeg", 10 * 1024 * 1024 + 1, 0), Err(StorageError::FileTooLarge(_, 10485760))));
    assert_eq!(sanitize_filename("ä b/c.txt"), "ä_b_c.txt");
    assert_eq!(guess_mime_type("clip.MP4"), "video/mp4");
    assert_eq!(guess_mime_type("noext"), "application/octet-stream");
    assert_eq!(detect_media_type("image/png"), "image");
    assert_eq!(detect_media_type("text/plain"), "other");
    assert_eq!(svc.base_path(), "/opt/lillpepe/storage");
    assert_eq!(svc.media_dir("wl1"), "/opt/lillpepe/storage/wl1/media");
    assert_eq!(svc.media_file("wl1", "a.png"), "/opt/lillpepe/storage/wl1/media/a.png");
}
