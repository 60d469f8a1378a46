use maangframe::labels::{
    ActivityLog, LabelStatus, Storage, activity_row, bytes_to_mb, email_queued_message, extract_domain,
    format_date, format_timestamp, label_event_message, label_row,
};

#[test]
fn activity_rows() {
    let log = ActivityLog {
        id: "1".to_string(),
        white_label_id: None,
        user_id: None,
        admin_action: true,
        action_type: "label_suspended".to_string(),
        description: "White label for shop.example.com suspended".to_string(),
        ip_address: None,
        user_agent: None,
        created_at: "2025-10-20T08:30:12.345Z".to_string(),
    };
    let r = activity_row(&log);
    assert_eq!(r.timestamp, "2025-10-20 08:30:12");
    assert_eq!(r.domain, "shop.example.com");
    assert_eq!(r.action, "label_suspended");
    assert_eq!(r.admin, "Admin");
    let system = ActivityLog { admin_action: false, description: "no domain here".to_string(), ..log };
    let r = activity_row(&system);
    assert_eq!(r.admin, "System");
    assert_eq!(r.domain, "N/A");
}

#[test]
fn label_rows() {
    let storage = Storage { images_bytes: 1048576, videos_bytes: 2 * 1048576, audio_bytes: 0, db_bytes: 1048575 };
    let r = label_row("l1", "a.io", LabelStatus::Gray, "2025-01-02T03:04:05Z", None, &storage);
    assert_eq!(r.status, "gray");
    assert_eq!(r.created_at, "2025-01-02");
    assert_eq!(r.last_payment, "Never");
    assert_eq!(r.storage_mb, 3);
    let r = label_row("l1", "a.io", LabelStatus::White, "x", Some("2025-05-06T00:00:00Z"), &storage);
    assert_eq!(r.last_payment, "2025-05-06");
}

#[test]
fn formatting_rules() {
    assert_eq!(format_date("2025-10-20T08:30:00Z"), "2025-10-20");
    assert_eq!(format_date("2025-10-20"), "2025-10-20");
    assert_eq!(format_timestamp("2025-10-20T08:30:00.5Z"), "2025-10-20 08:30:00");
    assert_eq!(bytes_to_mb(5 * 1048576 + 3), 5);
    assert_eq!(bytes_to_mb(-1), 0);
    assert_eq!(bytes_to_mb(-1048576), u32::MAX);
    assert_eq!(extract_domain("  deploy of   a.b  done"), "a.b");
}

#[test]
fn admin_messages() {
    assert_eq!(label_event_message("l7", "deleted"), "White label l7 deleted");
    assert_eq!(label_event_message("l7", "suspended"), "White label l7 suspended");
    assert_eq!(email_queued_message("l7"), "Email queued for label l7");
}
