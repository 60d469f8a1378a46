use maangframe::health::{
    AlertManager, AlertSeverity, BackupManager, Check, CheckStatus, HealthChecker, HealthCommand, HealthError,
    HealthReport, HealthStatus, HttpOutcome, api_check, dashboard_check, database_check, disk_check, memory_check,
    parse_command, ping_result, process_check, summarize,
};

fn check(status: CheckStatus) -> Check {
    Check { name: "x".to_string(), status, response_time_ms: 1, message: None }
}

#[test]
fn summary_counts_each_verdict() {
    let checks = vec![check(CheckStatus::Pass), check(CheckStatus::Warn), check(CheckStatus::Pass), check(CheckStatus::Fail)];
    let s = summarize(&checks);
    assert_eq!((s.total, s.passed, s.warnings, s.failed), (4, 2, 1, 1));
}

#[test]
fn report_is_down_with_a_failure_degraded_with_a_warning() {
    let r = HealthReport::from_checks(vec![check(CheckStatus::Warn), check(CheckStatus::Fail)], "t".to_string());
    assert_eq!(r.status, HealthStatus::Down);
    assert_eq!(r.exit_code(), 1);
    let r = HealthReport::from_checks(vec![check(CheckStatus::Pass), check(CheckStatus::Warn)], "t".to_string());
    assert_eq!(r.status, HealthStatus::Degraded);
    assert_eq!(r.exit_code(), 0);
}

#[test]
fn report_is_healthy_exactly_when_all_pass() {
    let r = HealthReport::from_checks(vec![check(CheckStatus::Pass), check(CheckStatus::Pass)], "now".to_string());
    assert_eq!(r.status, HealthStatus::Healthy);
    assert_eq!(r.summary.passed, r.summary.total);
    assert_eq!(r.timestamp, "now");
    let empty = HealthReport::from_checks(vec![], "now".to_string());
    assert_eq!(empty.status, HealthStatus::Healthy);
}

#[test]
fn urls_of_the_checker() {
    let c = HealthChecker::new("http://localhost:8080".to_string(), "127.0.0.1:8000".to_string());
    assert_eq!(c.timeout_secs, 5);
    assert_eq!(c.database_url(), "http://127.0.0.1:8000/health");
    assert_eq!(c.api_health_url(), "http://localhost:8080/api/v1/health");
    assert_eq!(c.admin_url(), "http://localhost:8080/admin");
}

#[test]
fn database_probe_outcomes() {
    assert!(ping_result(HttpOutcome::Success).is_ok());
    match ping_result(HttpOutcome::Status("503".to_string())) {
        Err(HealthError::DatabaseDown(m)) => assert_eq!(m, "Not responding"),
        _ => panic!(),
    }
    let c = database_check(ping_result(HttpOutcome::Failed("refused".to_string())), 7);
    assert_eq!(c.status, CheckStatus::Fail);
    assert_eq!(c.message.unwrap(), "Database unreachable: refused");
    let c = database_check(Ok(()), 3);
    assert_eq!((c.name.as_str(), c.status, c.response_time_ms), ("Database", CheckStatus::Pass, 3));
    assert_eq!(c.message.unwrap(), "SurrealDB responding");
}

#[test]
fn error_messages() {
    assert_eq!(HealthError::ApiDown("x".to_string()).message(), "API endpoint failed: x");
    assert_eq!(HealthError::ServiceDown("y".to_string()).message(), "Critical service down: y");
    assert_eq!(HealthError::Warning("z".to_string()).message(), "Warning: z");
}

#[test]
fn http_probe_checks() {
    let a = api_check(HttpOutcome::Status("500 Internal Server Error".to_string()), 2);
    assert_eq!(a.status, CheckStatus::Fail);
    assert_eq!(a.message.unwrap(), "Status: 500 Internal Server Error");
    assert_eq!(api_check(HttpOutcome::Success, 1).message.unwrap(), "API responding");
    let d = dashboard_check(HttpOutcome::Status("404 Not Found".to_string()), 2);
    assert_eq!(d.status, CheckStatus::Warn);
    assert!(dashboard_check(HttpOutcome::Success, 1).message.is_none());
    assert_eq!(dashboard_check(HttpOutcome::Failed("e".to_string()), 1).status, CheckStatus::Fail);
}

#[test]
fn local_probe_checks() {
    assert_eq!(disk_check(Err("denied".to_string()), 1).status, CheckStatus::Warn);
    assert_eq!(disk_check(Ok(()), 1).message.unwrap(), "Sufficient space");
    assert_eq!(memory_check(0).message.unwrap(), "Within limits");
    assert_eq!(process_check(true, 0).message.unwrap(), "Lillpepe running");
    let p = process_check(false, 0);
    assert_eq!(p.status, CheckStatus::Fail);
    assert_eq!(p.message.unwrap(), "Process not found");
}

#[test]
fn backups_are_named_and_expired() {
    let m = BackupManager::new("/var/backups/lillpepe".to_string(), 90);
    assert_eq!(
        m.backup_path("2025-10-20T08:30:00Z"),
        "/var/backups/lillpepe/backup_2025-10-20T08-30-00Z.tar.gz"
    );
    assert!(!m.is_past_retention(90 * 86400));
    assert!(m.is_past_retention(90 * 86400 + 1));
    let huge = BackupManager::new("d".to_string(), u32::MAX);
    assert!(!huge.is_past_retention(u64::from(u32::MAX) * 86400));
}

#[test]
fn alerts() {
    assert_eq!(AlertSeverity::Critical.as_str(), "CRITICAL");
    assert_eq!(AlertSeverity::Warning.as_str(), "WARNING");
    assert_eq!(AlertSeverity::Info.as_str(), "INFO");
    let a = AlertManager::alert(AlertSeverity::Warning, "disk".to_string(), "t".to_string());
    assert_eq!(AlertManager::log_line(&a), "ALERT [WARNING]: disk");
    assert!(AlertManager::new(None).webhook_url.is_none());
}

#[test]
fn commands() {
    let args = |v: &[&str]| v.iter().map(|s| s.to_string()).collect::<Vec<String>>();
    assert!(matches!(parse_command(&args(&["tool"])), HealthCommand::Usage));
    assert!(matches!(parse_command(&args(&["tool", "health"])), HealthCommand::Health));
    assert!(matches!(parse_command(&args(&["tool", "backup"])), HealthCommand::Backup));
    assert!(matches!(parse_command(&args(&["tool", "cleanup"])), HealthCommand::Cleanup));
    assert!(matches!(parse_command(&args(&["tool", "metrics"])), HealthCommand::Metrics));
    assert!(matches!(parse_command(&args(&["tool", "nope"])), HealthCommand::Unknown(ref u) if u == "nope"));
}
