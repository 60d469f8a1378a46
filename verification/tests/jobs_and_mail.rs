use maangframe::email::{compose, email_sent_note, renewal_subject, Notice};
use maangframe::html::html_to_plain_text;
use maangframe::jobs::{FailedJobs, FailureOutcome, Job, JobError, JobType, after_failure, recurring_jobs};

#[test]
fn failed_jobs_retry_with_doubling_delay_then_park() {
    let job = Job::new(JobType::BackupDatabases);
    assert_eq!(job.retry_count, 0);
    assert_eq!(job.max_retries, 3);
    let mut delays = vec![];
    let mut current = job;
    loop {
        match after_failure(current) {
            FailureOutcome::Retry { job, delay_secs } => {
                delays.push(delay_secs);
                current = job;
            }
            FailureOutcome::GiveUp { job } => {
                assert_eq!(job.retry_count, 3);
                break;
            }
        }
    }
    assert_eq!(delays, vec![2, 4, 8]);
}

#[test]
fn parked_jobs_can_be_retried_once() {
    let mut failed = FailedJobs::new();
    let mut job = Job::new(JobType::CleanupExpiredSessions);
    job.retry_count = 3;
    let id = job.id.clone();
    failed.push(job);
    assert_eq!(failed.list().len(), 1);
    let again = failed.retry_failed_job(&id).unwrap();
    assert_eq!(again.retry_count, 0);
    assert!(failed.list().is_empty());
    assert!(matches!(failed.retry_failed_job(&id), Err(JobError::NotFound(ref m)) if *m == id));
}

#[test]
fn processing_times_and_schedule() {
    assert_eq!(JobType::BackupDatabases.processing_millis(), 2000);
    assert_eq!(JobType::ProvisionWhiteLabel { domain: "d".into(), white_label_id: "w".into() }.processing_millis(), 1000);
    let s = recurring_jobs();
    let names: Vec<&str> = s.iter().map(|r| r.name.as_str()).collect();
    assert_eq!(names, vec!["cleanup_sessions", "backup_databases", "update_storage", "check_renewals", "check_overdue"]);
    assert_eq!(s[3].interval_secs, 43200);
}

#[test]
fn plain_text_alternative() {
    assert_eq!(html_to_plain_text("<p>Hi</p><ul><li>a</li></ul>line<br>next"), "<p>Hi\n\n<ul>• a\n</ul>line\nnext");
}

#[test]
fn envelopes() {
    let e = compose("Lillpepe", "noreply@lillpepe.com", "a@b.c", Some("Ann"), "Hello", "<p>x</p>".to_string());
    assert_eq!(e.from, "Lillpepe <noreply@lillpepe.com>");
    assert_eq!(e.to, "Ann <a@b.c>");
    assert_eq!(e.text_body, "<p>x\n\n");
    let e = compose("L", "l@x", "a@b.c", None, "S", String::new());
    assert_eq!(e.to, "a@b.c");
    assert_eq!(renewal_subject(7), "Subscription Renewing in 7 Days");
    assert_eq!(email_sent_note("Welcome", "a@b.c"), "Welcome email sent to a@b.c");
}

#[test]
fn subjects() {
    assert_eq!(Notice::Welcome.subject(), "Welcome to Lillpepe!");
    assert_eq!(Notice::PaymentFailed.subject(), "Payment Failed - Action Required");
    assert_eq!(Notice::Renewal(3).subject(), "Subscription Renewing in 3 Days");
    assert_eq!(Notice::PasswordReset.subject(), "Password Reset Request");
}
