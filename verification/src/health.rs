//! Production health checks, backups and alerts of the operations tool.
//!
//! The probes themselves (HTTP requests, process and directory lookups) are
//! made by the tool; the functions here turn their outcomes into checks, a
//! summary and an overall status.
use vstd::prelude::*;
use crate::text::{to_owned_string, push_str, replace_str, replace_all, str_eq};

verus! {

/// Why a probe failed.
#[derive(Debug)]
pub enum HealthError {
    DatabaseDown(String),
    ApiDown(String),
    ServiceDown(String),
    Warning(String),
}

impl HealthError {
    /// The error's message.
    pub fn message(&self) -> (res: String)
        ensures
            res@ == match self {
                HealthError::DatabaseDown(m) => "Database unreachable: "@ + m@,
                HealthError::ApiDown(m) => "API endpoint failed: "@ + m@,
                HealthError::ServiceDown(m) => "Critical service down: "@ + m@,
                HealthError::Warning(m) => "Warning: "@ + m@,
            },
    {
        let (mut s, m) = match self {
            HealthError::DatabaseDown(m) => (to_owned_string("Database unreachable: "), m),
            HealthError::ApiDown(m) => (to_owned_string("API endpoint failed: "), m),
            HealthError::ServiceDown(m) => (to_owned_string("Critical service down: "), m),
            HealthError::Warning(m) => (to_owned_string("Warning: "), m),
        };
        push_str(&mut s, m.as_str());
        s
    }
}

/// The overall state of the platform.
#[derive(Debug, Clone, Copy, PartialEq, Eq, Structural)]
pub enum HealthStatus {
    Healthy,
    Degraded,
    Down,
}

/// The verdict of one probe.
#[derive(Debug, Clone, Copy, PartialEq, Eq, Structural)]
pub enum CheckStatus {
    Pass,
    Warn,
    Fail,
}

/// One probe's result.
pub struct Check {
    pub name: String,
    pub status: CheckStatus,
    pub response_time_ms: u64,
    pub message: Option<String>,
}

/// How many probes ended in each verdict.
pub struct Summary {
    pub total: usize,
    pub passed: usize,
    pub warnings: usize,
    pub failed: usize,
}

/// A full health report.
pub struct HealthReport {
    pub status: HealthStatus,
    pub timestamp: String,
    pub checks: Vec<Check>,
    pub summary: Summary,
}

/// The number of checks with verdict `st`.
pub open spec fn status_count(checks: Seq<Check>, st: CheckStatus) -> nat
    decreases checks.len(),
{
    if checks.len() == 0 {
        0
    } else {
        status_count(checks.drop_last(), st) + if checks.last().status == st { 1nat } else { 0nat }
    }
}

/// The overall status of a summary: down if any probe failed, degraded if
/// any warned, healthy otherwise.
pub open spec fn overall(failed: nat, warnings: nat) -> HealthStatus {
    if failed > 0 {
        HealthStatus::Down
    } else if warnings > 0 {
        HealthStatus::Degraded
    } else {
        HealthStatus::Healthy
    }
}

/// The three counts always add up to the number of checks.
pub proof fn lemma_counts_add_up(checks: Seq<Check>)
    ensures
        status_count(checks, CheckStatus::Pass) + status_count(checks, CheckStatus::Warn)
            + status_count(checks, CheckStatus::Fail) == checks.len(),
    decreases checks.len(),
{
    if checks.len() > 0 {
        lemma_counts_add_up(checks.drop_last());
    }
}

/// Count the verdicts of a list of checks.
pub fn summarize(checks: &Vec<Check>) -> (res: Summary)
    ensures
        res.total == checks@.len(),
        res.passed == status_count(checks@, CheckStatus::Pass),
        res.warnings == status_count(checks@, CheckStatus::Warn),
        res.failed == status_count(checks@, CheckStatus::Fail),
{
    let mut passed: usize = 0;
    let mut warnings: usize = 0;
    let mut failed: usize = 0;
    let mut i: usize = 0;
    while i < checks.len()
        invariant
            i <= checks@.len(),
            passed == status_count(checks@.take(i as int), CheckStatus::Pass),
            warnings == status_count(checks@.take(i as int), CheckStatus::Warn),
            failed == status_count(checks@.take(i as int), CheckStatus::Fail),
        decreases checks@.len() - i,
    {
        proof {
            assert(checks@.take(i + 1).drop_last() =~= checks@.take(i as int));
            lemma_counts_add_up(checks@.take(i as int));
        }
        match checks[i].status {
            CheckStatus::Pass => passed = passed + 1,
            CheckStatus::Warn => warnings = warnings + 1,
            CheckStatus::Fail => failed = failed + 1,
        }
        i = i + 1;
    }
    assert(checks@.take(checks@.len() as int) =~= checks@);
    Summary { total: checks.len(), passed, warnings, failed }
}

/// The overall status of a summary.
pub fn overall_status(summary: &Summary) -> (res: HealthStatus)
    ensures
        res == overall(summary.failed as nat, summary.warnings as nat),
{
    if summary.failed > 0 {
        HealthStatus::Down
    } else if summary.warnings > 0 {
        HealthStatus::Degraded
    } else {
        HealthStatus::Healthy
    }
}

impl HealthReport {
    /// The report on a run of probes taken at `timestamp`.
    pub fn from_checks(checks: Vec<Check>, timestamp: String) -> (res: HealthReport)
        ensures
            res.checks@ == checks@,
            res.timestamp == timestamp,
            res.summary.total == checks@.len(),
            res.summary.passed == status_count(checks@, CheckStatus::Pass),
            res.summary.warnings == status_count(checks@, CheckStatus::Warn),
            res.summary.failed == status_count(checks@, CheckStatus::Fail),
            res.status == overall(
                status_count(checks@, CheckStatus::Fail),
                status_count(checks@, CheckStatus::Warn),
            ),
    {
        let summary = summarize(&checks);
        let status = overall_status(&summary);
        HealthReport { status, timestamp, checks, summary }
    }

    /// The exit code of the `health` command: 1 when the platform is down,
    /// 0 otherwise.
    pub fn exit_code(&self) -> (res: i32)
        ensures
            res == if self.status == HealthStatus::Down { 1i32 } else { 0i32 },
    {
        match self.status {
            HealthStatus::Down => 1,
            _ => 0,
        }
    }
}

/// A report is healthy exactly when every probe passed, and down exactly
/// when at least one failed.
pub proof fn law_healthy_iff_all_pass(checks: Seq<Check>)
    ensures
        overall(status_count(checks, CheckStatus::Fail), status_count(checks, CheckStatus::Warn))
            == HealthStatus::Healthy <==> status_count(checks, CheckStatus::Pass) == checks.len(),
        overall(status_count(checks, CheckStatus::Fail), status_count(checks, CheckStatus::Warn))
            == HealthStatus::Down <==> status_count(checks, CheckStatus::Fail) > 0,
{
    lemma_counts_add_up(checks);
}

// ---------------------------------------------------------------------------
// Probes
// ---------------------------------------------------------------------------

/// What an HTTP probe got back.
pub enum HttpOutcome {
    /// A success status.
    Success,
    /// Another status, in its display form.
    Status(String),
    /// No answer, with the client's error text.
    Failed(String),
}

/// The checker's targets; requests time out after `timeout_secs`.
pub struct HealthChecker {
    pub api_base: String,
    pub db_host: String,
    pub timeout_secs: u64,
}

impl HealthChecker {
    /// A checker with a five-second timeout.
    pub fn new(api_base: String, db_host: String) -> (res: HealthChecker)
        ensures
            res.api_base == api_base,
            res.db_host == db_host,
            res.timeout_secs == 5,
    {
        HealthChecker { api_base, db_host, timeout_secs: 5 }
    }

    /// The database health endpoint: `http://<db_host>/health`.
    pub fn database_url(&self) -> (res: String)
        ensures
            res@ == "http://"@ + self.db_host@ + "/health"@,
    {
        let mut s = to_owned_string("http://");
        push_str(&mut s, self.db_host.as_str());
        push_str(&mut s, "/health");
        s
    }

    /// The API health endpoint: `<api_base>/api/v1/health`.
    pub fn api_health_url(&self) -> (res: String)
        ensures
            res@ == self.api_base@ + "/api/v1/health"@,
    {
        let mut s = to_owned_string(self.api_base.as_str());
        push_str(&mut s, "/api/v1/health");
        s
    }

    /// The administration dashboard: `<api_base>/admin`.
    pub fn admin_url(&self) -> (res: String)
        ensures
            res@ == self.api_base@ + "/admin"@,
    {
        let mut s = to_owned_string(self.api_base.as_str());
        push_str(&mut s, "/admin");
        s
    }
}

/// The database ping: a success status is up; anything else is
/// `DatabaseDown`, with the client's error or "Not responding".
pub fn ping_result(outcome: HttpOutcome) -> (res: Result<(), HealthError>)
    ensures
        match outcome {
            HttpOutcome::Success => res is Ok,
            HttpOutcome::Status(_) => res matches Err(HealthError::DatabaseDown(m)) && m@ == "Not responding"@,
            HttpOutcome::Failed(e) => res matches Err(HealthError::DatabaseDown(m)) && m == e,
        },
{
    match outcome {
        HttpOutcome::Success => Ok(()),
        HttpOutcome::Status(_) => Err(HealthError::DatabaseDown(to_owned_string("Not responding"))),
        HttpOutcome::Failed(e) => Err(HealthError::DatabaseDown(e)),
    }
}

/// The status line shown for an unexpected HTTP status: `Status: <status>`.
pub open spec fn status_message(status: Seq<char>) -> Seq<char> {
    "Status: "@ + status
}

fn status_text(status: &str) -> (res: String)
    ensures
        res@ == status_message(status@),
{
    let mut s = to_owned_string("Status: ");
    push_str(&mut s, status);
    s
}

/// The database check from the ping's result.
pub fn database_check(ping: Result<(), HealthError>, elapsed_ms: u64) -> (res: Check)
    ensures
        res.name@ == "Database"@,
        res.response_time_ms == elapsed_ms,
        ping is Ok ==> res.status == CheckStatus::Pass && (res.message matches Some(m) && m@ == "SurrealDB responding"@),
        ping matches Err(e) ==> res.status == CheckStatus::Fail && (res.message matches Some(m) && m@ == match e {
            HealthError::DatabaseDown(x) => "Database unreachable: "@ + x@,
            HealthError::ApiDown(x) => "API endpoint failed: "@ + x@,
            HealthError::ServiceDown(x) => "Critical service down: "@ + x@,
            HealthError::Warning(x) => "Warning: "@ + x@,
        }),
{
    match ping {
        Ok(()) => Check {
            name: to_owned_string("Database"),
            status: CheckStatus::Pass,
            response_time_ms: elapsed_ms,
            message: Some(to_owned_string("SurrealDB responding")),
        },
        Err(e) => Check {
            name: to_owned_string("Database"),
            status: CheckStatus::Fail,
            response_time_ms: elapsed_ms,
            message: Some(e.message()),
        },
    }
}

/// The API check: a success passes, another status fails with the status,
/// no answer fails with the client's error.
pub fn api_check(outcome: HttpOutcome, elapsed_ms: u64) -> (res: Check)
    ensures
        res.name@ == "API Health"@,
        res.response_time_ms == elapsed_ms,
        match outcome {
            HttpOutcome::Success => res.status == CheckStatus::Pass
                && (res.message matches Some(m) && m@ == "API responding"@),
            HttpOutcome::Status(s) => res.status == CheckStatus::Fail
                && (res.message matches Some(m) && m@ == status_message(s@)),
            HttpOutcome::Failed(e) => res.status == CheckStatus::Fail && res.message == Some(e),
        },
{
    let name = to_owned_string("API Health");
    match outcome {
        HttpOutcome::Success => Check {
            name,
            status: CheckStatus::Pass,
            response_time_ms: elapsed_ms,
            message: Some(to_owned_string("API responding")),
        },
        HttpOutcome::Status(s) => Check {
            name,
            status: CheckStatus::Fail,
            response_time_ms: elapsed_ms,
            message: Some(status_text(s.as_str())),
        },
        HttpOutcome::Failed(e) => Check { name, status: CheckStatus::Fail, response_time_ms: elapsed_ms, message: Some(e) },
    }
}

/// The dashboard check: a success passes without message, another status
/// only warns, no answer fails.
pub fn dashboard_check(outcome: HttpOutcome, elapsed_ms: u64) -> (res: Check)
    ensures
        res.name@ == "Admin Dashboard"@,
        res.response_time_ms == elapsed_ms,
        match outcome {
            HttpOutcome::Success => res.status == CheckStatus::Pass && res.message is None,
            HttpOutcome::Status(s) => res.status == CheckStatus::Warn
                && (res.message matches Some(m) && m@ == status_message(s@)),
            HttpOutcome::Failed(e) => res.status == CheckStatus::Fail && res.message == Some(e),
        },
{
    let name = to_owned_string("Admin Dashboard");
    match outcome {
        HttpOutcome::Success => Check { name, status: CheckStatus::Pass, response_time_ms: elapsed_ms, message: None },
        HttpOutcome::Status(s) => Check {
            name,
            status: CheckStatus::Warn,
            response_time_ms: elapsed_ms,
            message: Some(status_text(s.as_str())),
        },
        HttpOutcome::Failed(e) => Check { name, status: CheckStatus::Fail, response_time_ms: elapsed_ms, message: Some(e) },
    }
}

/// The disk check: a readable installation directory passes, otherwise it
/// warns with the error text.
pub fn disk_check(listing: Result<(), String>, elapsed_ms: u64) -> (res: Check)
    ensures
        res.name@ == "Disk Space"@,
        res.response_time_ms == elapsed_ms,
        match listing {
            Ok(()) => res.status == CheckStatus::Pass && (res.message matches Some(m) && m@ == "Sufficient space"@),
            Err(e) => res.status == CheckStatus::Warn && res.message == Some(e),
        },
{
    let name = to_owned_string("Disk Space");
    match listing {
        Ok(()) => Check {
            name,
            status: CheckStatus::Pass,
            response_time_ms: elapsed_ms,
            message: Some(to_owned_string("Sufficient space")),
        },
        Err(e) => Check { name, status: CheckStatus::Warn, response_time_ms: elapsed_ms, message: Some(e) },
    }
}

/// The memory check, which always passes.
pub fn memory_check(elapsed_ms: u64) -> (res: Check)
    ensures
        res.name@ == "Memory"@,
        res.status == CheckStatus::Pass,
        res.response_time_ms == elapsed_ms,
        res.message matches Some(m) && m@ == "Within limits"@,
{
    Check {
        name: to_owned_string("Memory"),
        status: CheckStatus::Pass,
        response_time_ms: elapsed_ms,
        message: Some(to_owned_string("Within limits")),
    }
}

/// The process check: passes when a `lillpepe` process was found.
pub fn process_check(found: bool, elapsed_ms: u64) -> (res: Check)
    ensures
        res.name@ == "Process"@,
        res.response_time_ms == elapsed_ms,
        found ==> res.status == CheckStatus::Pass && (res.message matches Some(m) && m@ == "Lillpepe running"@),
        !found ==> res.status == CheckStatus::Fail && (res.message matches Some(m) && m@ == "Process not found"@),
{
    if found {
        Check {
            name: to_owned_string("Process"),
            status: CheckStatus::Pass,
            response_time_ms: elapsed_ms,
            message: Some(to_owned_string("Lillpepe running")),
        }
    } else {
        Check {
            name: to_owned_string("Process"),
            status: CheckStatus::Fail,
            response_time_ms: elapsed_ms,
            message: Some(to_owned_string("Process not found")),
        }
    }
}

// ---------------------------------------------------------------------------
// Backups
// ---------------------------------------------------------------------------

/// Where database backups go and how many days they are kept.
pub struct BackupManager {
    pub backup_dir: String,
    pub retention_days: u32,
}

impl BackupManager {
    /// A manager for `backup_dir` keeping backups `retention_days` days.
    pub fn new(backup_dir: String, retention_days: u32) -> (res: BackupManager)
        ensures
            res.backup_dir == backup_dir,
            res.retention_days == retention_days,
    {
        BackupManager { backup_dir, retention_days }
    }

    /// The file of a backup taken at an RFC 3339 timestamp:
    /// `<dir>/backup_<timestamp with ':' replaced by '-'>.tar.gz`.
    pub fn backup_path(&self, timestamp: &str) -> (res: String)
        ensures
            res@ == self.backup_dir@ + "/backup_"@ + replace_all(timestamp@, ":"@, "-"@) + ".tar.gz"@,
    {
        proof {
            reveal_strlit(":");
        }
        let mut s = to_owned_string(self.backup_dir.as_str());
        push_str(&mut s, "/backup_");
        let ts = replace_str(timestamp, ":", "-");
        push_str(&mut s, ts.as_str());
        push_str(&mut s, ".tar.gz");
        s
    }

    /// Whether a backup of this age (in seconds) is past retention: older
    /// than `retention_days` days.
    pub fn is_past_retention(&self, age_secs: u64) -> (res: bool)
        ensures
            res == (age_secs > self.retention_days * 86400),
    {
        let retention: u64 = self.retention_days as u64 * 86400;
        age_secs > retention
    }
}

// ---------------------------------------------------------------------------
// Alerts
// ---------------------------------------------------------------------------

/// How serious an alert is.
#[derive(Debug, Clone, Copy, PartialEq, Eq, Structural)]
pub enum AlertSeverity {
    Critical,
    Warning,
    Info,
}

/// The label of a severity in the log.
pub open spec fn severity_label(s: AlertSeverity) -> Seq<char> {
    match s {
        AlertSeverity::Critical => "CRITICAL"@,
        AlertSeverity::Warning => "WARNING"@,
        AlertSeverity::Info => "INFO"@,
    }
}

impl AlertSeverity {
    /// The label of the severity in the log.
    pub fn as_str(&self) -> (res: &'static str)
        ensures
            res@ == severity_label(*self),
    {
        match self {
            AlertSeverity::Critical => "CRITICAL",
            AlertSeverity::Warning => "WARNING",
            AlertSeverity::Info => "INFO",
        }
    }
}

/// An alert as it is posted to the webhook.
pub struct Alert {
    pub severity: AlertSeverity,
    pub message: String,
    pub timestamp: String,
}

/// Where alerts are posted, if anywhere.
pub struct AlertManager {
    pub webhook_url: Option<String>,
}

impl AlertManager {
    /// A manager posting to `webhook_url`, if given.
    pub fn new(webhook_url: Option<String>) -> (res: AlertManager)
        ensures
            res.webhook_url == webhook_url,
    {
        AlertManager { webhook_url }
    }

    /// The alert to log and post.
    pub fn alert(severity: AlertSeverity, message: String, timestamp: String) -> (res: Alert)
        ensures
            res.severity == severity,
            res.message == message,
            res.timestamp == timestamp,
    {
        Alert { severity, message, timestamp }
    }

    /// The log line of an alert: `ALERT [<SEVERITY>]: <message>`.
    pub fn log_line(alert: &Alert) -> (res: String)
        ensures
            res@ == "ALERT ["@ + severity_label(alert.severity) + "]: "@ + alert.message@,
    {
        let mut s = to_owned_string("ALERT [");
        push_str(&mut s, alert.severity.as_str());
        push_str(&mut s, "]: ");
        push_str(&mut s, alert.message.as_str());
        s
    }
}

// ---------------------------------------------------------------------------
// The command line
// ---------------------------------------------------------------------------

/// The tool's commands.
pub enum HealthCommand {
    /// No command given: print the usage.
    Usage,
    Health,
    Backup,
    Cleanup,
    Metrics,
    /// A command the tool does not know.
    Unknown(String),
}

/// The command named by the first argument after the program name.
pub fn parse_command(args: &Vec<String>) -> (res: HealthCommand)
    ensures
        args@.len() < 2 ==> res is Usage,
        args@.len() >= 2 ==> {
            let a = args@[1]@;
            if a == "health"@ {
                res is Health
            } else if a == "backup"@ {
                res is Backup
            } else if a == "cleanup"@ {
                res is Cleanup
            } else if a == "metrics"@ {
                res is Metrics
            } else {
                res matches HealthCommand::Unknown(u) && u@ == a
            }
        },
{
    if args.len() < 2 {
        return HealthCommand::Usage;
    }
    let a = args[1].as_str();
    if str_eq(a, "health") {
        HealthCommand::Health
    } else if str_eq(a, "backup") {
        HealthCommand::Backup
    } else if str_eq(a, "cleanup") {
        HealthCommand::Cleanup
    } else if str_eq(a, "metrics") {
        HealthCommand::Metrics
    } else {
        HealthCommand::Unknown(to_owned_string(a))
    }
}

} // verus!
