//! Background jobs: what a job is, how failures are retried with exponential
//! back-off, the parking lot of jobs that used up their retries, and the
//! recurring maintenance schedule.
use vstd::prelude::*;
use crate::clock::now_unix_utc;
use crate::random::{is_uuid_v4_text, new_uuid_v4_string};
use crate::text::{str_eq, to_owned_string};

verus! {

/// Why a job could not be handled.
#[derive(Debug)]
pub enum JobError {
    ExecutionFailed(String),
    NotFound(String),
    QueueFull,
}

/// The work a job stands for.
pub enum JobType {
    SendWelcomeEmail { domain: String, email: String, password: String },
    SendPaymentSuccessEmail { domain: String, invoice_id: String },
    SendPaymentFailedEmail { domain: String, amount: String },
    SendSubscriptionExpiringEmail { domain: String, days_until: u8 },
    ProcessStripeWebhook { event_id: String, payload: String },
    ProvisionWhiteLabel { domain: String, white_label_id: String },
    DeleteWhiteLabel { domain: String, white_label_id: String },
    CleanupExpiredSessions,
    BackupDatabases,
    UpdateStorageMetrics,
    CheckSubscriptionRenewals,
    CheckOverduePayments,
}

impl JobType {
    /// A variant-by-variant copy.
    pub fn duplicate(&self) -> (res: JobType)
        ensures
            res == *self,
    {
        match self {
            JobType::SendWelcomeEmail { domain, email, password } => JobType::SendWelcomeEmail {
                domain: domain.clone(),
                email: email.clone(),
                password: password.clone(),
            },
            JobType::SendPaymentSuccessEmail { domain, invoice_id } => JobType::SendPaymentSuccessEmail {
                domain: domain.clone(),
                invoice_id: invoice_id.clone(),
            },
            JobType::SendPaymentFailedEmail { domain, amount } => JobType::SendPaymentFailedEmail {
                domain: domain.clone(),
                amount: amount.clone(),
            },
            JobType::SendSubscriptionExpiringEmail { domain, days_until } => JobType::SendSubscriptionExpiringEmail {
                domain: domain.clone(),
                days_until: *days_until,
            },
            JobType::ProcessStripeWebhook { event_id, payload } => JobType::ProcessStripeWebhook {
                event_id: event_id.clone(),
                payload: payload.clone(),
            },
            JobType::ProvisionWhiteLabel { domain, white_label_id } => JobType::ProvisionWhiteLabel {
                domain: domain.clone(),
                white_label_id: white_label_id.clone(),
            },
            JobType::DeleteWhiteLabel { domain, white_label_id } => JobType::DeleteWhiteLabel {
                domain: domain.clone(),
                white_label_id: white_label_id.clone(),
            },
            JobType::CleanupExpiredSessions => JobType::CleanupExpiredSessions,
            JobType::BackupDatabases => JobType::BackupDatabases,
            JobType::UpdateStorageMetrics => JobType::UpdateStorageMetrics,
            JobType::CheckSubscriptionRenewals => JobType::CheckSubscriptionRenewals,
            JobType::CheckOverduePayments => JobType::CheckOverduePayments,
        }
    }

    /// How long the default worker spends on a job of this kind, in
    /// milliseconds, before reporting it done.
    pub fn processing_millis(&self) -> (res: u64)
        ensures
            res == job_processing_millis(*self),
    {
        match self {
            JobType::SendWelcomeEmail { .. } => 100,
            JobType::SendPaymentSuccessEmail { .. } => 100,
            JobType::SendPaymentFailedEmail { .. } => 100,
            JobType::SendSubscriptionExpiringEmail { .. } => 100,
            JobType::ProcessStripeWebhook { .. } => 200,
            JobType::ProvisionWhiteLabel { .. } => 1000,
            JobType::DeleteWhiteLabel { .. } => 500,
            JobType::CleanupExpiredSessions => 300,
            JobType::BackupDatabases => 2000,
            JobType::UpdateStorageMetrics => 500,
            JobType::CheckSubscriptionRenewals => 400,
            JobType::CheckOverduePayments => 400,
        }
    }
}

/// The default worker's run of a job: every kind of job succeeds, after
/// the processing time of its kind (in milliseconds, at most two seconds),
/// which the worker waits.
pub fn execute_job(job: &Job) -> (res: Result<u64, JobError>)
    ensures
        res == Ok::<u64, JobError>(job_processing_millis(job.job_type)),
        job_processing_millis(job.job_type) <= 2000,
{
    Ok(job.job_type.processing_millis())
}

/// The default worker's processing time of each kind of job.
pub open spec fn job_processing_millis(t: JobType) -> u64 {
    match t {
        JobType::SendWelcomeEmail { .. } => 100,
        JobType::SendPaymentSuccessEmail { .. } => 100,
        JobType::SendPaymentFailedEmail { .. } => 100,
        JobType::SendSubscriptionExpiringEmail { .. } => 100,
        JobType::ProcessStripeWebhook { .. } => 200,
        JobType::ProvisionWhiteLabel { .. } => 1000,
        JobType::DeleteWhiteLabel { .. } => 500,
        JobType::CleanupExpiredSessions => 300,
        JobType::BackupDatabases => 2000,
        JobType::UpdateStorageMetrics => 500,
        JobType::CheckSubscriptionRenewals => 400,
        JobType::CheckOverduePayments => 400,
    }
}

/// A queued unit of work.
pub struct Job {
    pub id: String,
    pub job_type: JobType,
    pub retry_count: u8,
    pub max_retries: u8,
    pub created_at: i64,
}

/// Retries a new job gets before it is parked as failed.
pub const DEFAULT_MAX_RETRIES: u8 = 3;

impl Job {
    /// A new job with a random UUID, no retries used, three allowed, created
    /// now.
    pub fn new(job_type: JobType) -> (res: Job)
        ensures
            is_uuid_v4_text(res.id@),
            res.job_type == job_type,
            res.retry_count == 0,
            res.max_retries == DEFAULT_MAX_RETRIES,
            -0x2000_0000_0000 < res.created_at < 0x2000_0000_0000,
    {
        Job {
            id: new_uuid_v4_string(),
            job_type,
            retry_count: 0,
            max_retries: DEFAULT_MAX_RETRIES,
            created_at: now_unix_utc(),
        }
    }

    /// Whether the job may be tried again after a failure.
    pub fn can_retry(&self) -> (res: bool)
        ensures
            res == (self.retry_count < self.max_retries),
    {
        self.retry_count < self.max_retries
    }

    /// A field-by-field copy.
    pub fn duplicate(&self) -> (res: Job)
        ensures
            res == *self,
    {
        Job {
            id: self.id.clone(),
            job_type: self.job_type.duplicate(),
            retry_count: self.retry_count,
            max_retries: self.max_retries,
            created_at: self.created_at,
        }
    }
}

// ---------------------------------------------------------------------------
// Failure handling
// ---------------------------------------------------------------------------

/// `2^n`.
pub open spec fn two_to(n: nat) -> nat
    decreases n,
{
    if n == 0 { 1 } else { 2 * two_to((n - 1) as nat) }
}

/// What happens to a job whose execution failed.
pub enum FailureOutcome {
    /// Sleep `delay_secs`, then enqueue `job` again.
    Retry { job: Job, delay_secs: u64 },
    /// The job used up its retries; park it with the failed jobs.
    GiveUp { job: Job },
}

/// The outcome of a failure of `job`: while it may retry, its retry count
/// goes up by one and it waits `2^retry_count` seconds; otherwise it is given
/// up unchanged.
pub open spec fn failure_outcome(job: Job) -> FailureOutcome {
    if job.retry_count < job.max_retries {
        FailureOutcome::Retry {
            job: Job { retry_count: (job.retry_count + 1) as u8, ..job },
            delay_secs: two_to((job.retry_count + 1) as nat) as u64,
        }
    } else {
        FailureOutcome::GiveUp { job }
    }
}

fn pow2_u64(n: u32) -> (res: u64)
    requires
        n < 64,
    ensures
        res == two_to(n as nat),
{
    let mut r: u64 = 1;
    let mut i: u32 = 0;
    while i < n
        invariant
            i <= n < 64,
            r == two_to(i as nat),
            r <= 0x8000_0000_0000_0000,
            r * 2 == two_to((i + 1) as nat),
        decreases n - i,
    {
        proof {
            lemma_two_to_bound((i + 1) as nat);
            lemma_two_to_bound((i + 2) as nat);
        }
        r = r * 2;
        i += 1;
    }
    r
}

proof fn lemma_two_to_mono(a: nat, b: nat)
    requires
        a <= b,
    ensures
        two_to(a) <= two_to(b),
    decreases b,
{
    if a < b {
        lemma_two_to_mono(a, (b - 1) as nat);
    }
}

proof fn lemma_two_to_bound(n: nat)
    requires
        n <= 64,
    ensures
        two_to(n) <= 0x1_0000_0000_0000_0000,
        n < 64 ==> two_to(n) <= 0x8000_0000_0000_0000,
{
    reveal_with_fuel(two_to, 65);
    lemma_two_to_mono(n, 64);
    if n < 64 {
        lemma_two_to_mono(n, 63);
    }
}

/// Decide what to do with a job whose execution failed.
pub fn after_failure(job: Job) -> (res: FailureOutcome)
    requires
        job.retry_count < job.max_retries ==> job.retry_count < 63,
    ensures
        res == failure_outcome(job),
{
    if job.can_retry() {
        let mut job = job;
        job.retry_count = job.retry_count + 1;
        let delay_secs = pow2_u64(job.retry_count as u32);
        FailureOutcome::Retry { job, delay_secs }
    } else {
        FailureOutcome::GiveUp { job }
    }
}

/// The job after `k` consecutive failures: `None` once it has been given up.
pub open spec fn fail_times(job: Job, k: nat) -> Option<Job>
    decreases k,
{
    if k == 0 {
        Some(job)
    } else {
        match fail_times(job, (k - 1) as nat) {
            None => None,
            Some(j) => match failure_outcome(j) {
                FailureOutcome::Retry { job, .. } => Some(job),
                FailureOutcome::GiveUp { .. } => None,
            },
        }
    }
}

/// A job that keeps failing is retried exactly as many times as it has
/// retries left: after `k` failures it is still queued, with `k` more retries
/// counted, exactly when `k` does not exceed the retries left.
pub proof fn law_bounded_retries(job: Job, k: nat)
    requires
        job.retry_count <= job.max_retries,
    ensures
        fail_times(job, k) is Some <==> k <= job.max_retries - job.retry_count,
        fail_times(job, k) matches Some(j) ==> j == (Job { retry_count: (job.retry_count + k) as u8, ..job }),
    decreases k,
{
    if k > 0 {
        law_bounded_retries(job, (k - 1) as nat);
        match fail_times(job, (k - 1) as nat) {
            None => {},
            Some(j) => {
                if j.retry_count < j.max_retries {
                    assert(((j.retry_count + 1) as u8) == j.retry_count + 1);
                }
            },
        }
    }
}

// ---------------------------------------------------------------------------
// The worker
// ---------------------------------------------------------------------------

/// What a worker does with a job once it has run it.
pub enum WorkerAction {
    /// The job succeeded; nothing more happens to it.
    Completed,
    /// The job failed with retries left: sleep `delay_secs`, then enqueue
    /// `job` again.
    Requeue { job: Job, delay_secs: u64 },
    /// The job failed with no retries left: park `job` with the failed jobs.
    Park { job: Job },
}

/// The worker's action for a job, from whether its execution succeeded.
pub open spec fn worker_action(job: Job, succeeded: bool) -> WorkerAction {
    if succeeded {
        WorkerAction::Completed
    } else {
        match failure_outcome(job) {
            FailureOutcome::Retry { job, delay_secs } => WorkerAction::Requeue { job, delay_secs },
            FailureOutcome::GiveUp { job } => WorkerAction::Park { job },
        }
    }
}

/// One round of a worker: the job it received and what its execution
/// returned decide what happens next.
pub fn worker_step(job: Job, executed: &Result<u64, JobError>) -> (res: WorkerAction)
    requires
        job.retry_count < job.max_retries ==> job.retry_count < 63,
    ensures
        res == worker_action(job, executed is Ok),
{
    match executed {
        Ok(_) => WorkerAction::Completed,
        Err(_) => match after_failure(job) {
            FailureOutcome::Retry { job, delay_secs } => WorkerAction::Requeue { job, delay_secs },
            FailureOutcome::GiveUp { job } => WorkerAction::Park { job },
        },
    }
}

/// The worker's actions on a job whose every execution fails, one per
/// execution (at most `rounds` of them), up to the one that parks it.
pub open spec fn failing_run(job: Job, rounds: nat) -> Seq<WorkerAction>
    decreases rounds,
{
    if rounds == 0 {
        Seq::empty()
    } else {
        match worker_action(job, false) {
            WorkerAction::Requeue { job: next, delay_secs } => seq![
                WorkerAction::Requeue { job: next, delay_secs },
            ] + failing_run(next, (rounds - 1) as nat),
            other => seq![other],
        }
    }
}

proof fn lemma_failing_run(job: Job, rounds: nat)
    requires
        job.retry_count <= job.max_retries,
        rounds > job.max_retries - job.retry_count,
    ensures
        failing_run(job, rounds).len() == job.max_retries - job.retry_count + 1,
        forall|i: int|
            0 <= i < job.max_retries - job.retry_count ==> #[trigger] failing_run(job, rounds)[i] == (WorkerAction::Requeue {
                job: Job { retry_count: (job.retry_count + i + 1) as u8, ..job },
                delay_secs: two_to((job.retry_count + i + 1) as nat) as u64,
            }),
        failing_run(job, rounds)[job.max_retries - job.retry_count] == (WorkerAction::Park {
            job: Job { retry_count: job.max_retries, ..job },
        }),
    decreases rounds,
{
    if job.retry_count < job.max_retries {
        let next = Job { retry_count: (job.retry_count + 1) as u8, ..job };
        lemma_failing_run(next, (rounds - 1) as nat);
        let rest = failing_run(next, (rounds - 1) as nat);
        let run = failing_run(job, rounds);
        assert(run == seq![
            WorkerAction::Requeue { job: next, delay_secs: two_to((job.retry_count + 1) as nat) as u64 },
        ] + rest);
        assert forall|i: int| 0 <= i < job.max_retries - job.retry_count implies #[trigger] run[i] == (WorkerAction::Requeue {
            job: Job { retry_count: (job.retry_count + i + 1) as u8, ..job },
            delay_secs: two_to((job.retry_count + i + 1) as nat) as u64,
        }) by {
            if i > 0 {
                assert(run[i] == rest[i - 1]);
                assert((next.retry_count + (i - 1) + 1) == job.retry_count + i + 1);
            }
        }
        assert(run[job.max_retries - job.retry_count] == rest[job.max_retries - next.retry_count]);
    } else {
        assert(job == Job { retry_count: job.max_retries, ..job });
    }
}

/// A fresh job whose every execution fails is executed exactly
/// `max_retries + 1` times: before its `k`-th re-enqueue (`k` from 1 to
/// `max_retries`) its retry count is `k` and the worker waits `2^k`
/// seconds, and after the last execution it is parked once, with retry
/// count `max_retries`.  A job whose execution succeeds is never parked.
pub proof fn law_worker_retries_then_parks(job: Job, rounds: nat)
    requires
        job.retry_count == 0,
        rounds > job.max_retries,
    ensures
        failing_run(job, rounds).len() == job.max_retries + 1,
        forall|k: int|
            1 <= k <= job.max_retries ==> #[trigger] failing_run(job, rounds)[k - 1] == (WorkerAction::Requeue {
                job: Job { retry_count: k as u8, ..job },
                delay_secs: two_to(k as nat) as u64,
            }),
        failing_run(job, rounds).last() == (WorkerAction::Park { job: Job { retry_count: job.max_retries, ..job } }),
        worker_action(job, true) is Completed,
{
    lemma_failing_run(job, rounds);
    assert forall|k: int| 1 <= k <= job.max_retries implies #[trigger] failing_run(job, rounds)[k - 1] == (WorkerAction::Requeue {
        job: Job { retry_count: k as u8, ..job },
        delay_secs: two_to(k as nat) as u64,
    }) by {
        assert(failing_run(job, rounds)[k - 1] == (WorkerAction::Requeue {
            job: Job { retry_count: (job.retry_count + (k - 1) + 1) as u8, ..job },
            delay_secs: two_to((job.retry_count + (k - 1) + 1) as nat) as u64,
        }));
    }
}

// ---------------------------------------------------------------------------
// Failed jobs
// ---------------------------------------------------------------------------

/// The position of the first job with id `id` in `jobs`.
pub open spec fn first_with_id(jobs: Seq<Job>, id: Seq<char>, i: int) -> bool {
    0 <= i < jobs.len() && jobs[i].id@ == id && forall|k: int| 0 <= k < i ==> jobs[k].id@ != id
}

/// Jobs that used up their retries, oldest first.
pub struct FailedJobs {
    jobs: Vec<Job>,
}

impl FailedJobs {
    pub closed spec fn view(&self) -> Seq<Job> {
        self.jobs@
    }

    pub fn new() -> (res: FailedJobs)
        ensures
            res.view() == Seq::<Job>::empty(),
    {
        FailedJobs { jobs: Vec::new() }
    }

    /// Park a job.
    pub fn push(&mut self, job: Job)
        ensures
            final(self).view() == old(self).view().push(job),
    {
        self.jobs.push(job);
    }

    /// Copies of the parked jobs.
    pub fn list(&self) -> (res: Vec<Job>)
        ensures
            res@ == self.view(),
    {
        let mut res: Vec<Job> = Vec::new();
        let mut i: usize = 0;
        while i < self.jobs.len()
            invariant
                i <= self.jobs@.len(),
                res@ == self.jobs@.take(i as int),
            decreases self.jobs@.len() - i,
        {
            res.push(self.jobs[i].duplicate());
            assert(self.jobs@.take(i + 1) =~= self.jobs@.take(i as int).push(self.jobs@[i as int]));
            i += 1;
        }
        assert(self.jobs@.take(self.jobs@.len() as int) =~= self.jobs@);
        res
    }

    /// Take the first parked job with id `job_id` out for another round, its
    /// retry count reset to zero; `NotFound(job_id)` when none is parked.
    pub fn retry_failed_job(&mut self, job_id: &str) -> (res: Result<Job, JobError>)
        ensures
            match res {
                Ok(job) => exists|i: int|
                    first_with_id(old(self).view(), job_id@, i) && job == (Job { retry_count: 0, ..old(self).view()[i] })
                        && final(self).view() == old(self).view().remove(i),
                Err(e) => (e matches JobError::NotFound(m) && m@ == job_id@)
                    && final(self).view() == old(self).view() && forall|k: int|
                    0 <= k < old(self).view().len() ==> old(self).view()[k].id@ != job_id@,
            },
    {
        let mut i: usize = 0;
        while i < self.jobs.len()
            invariant
                i <= self.jobs@.len(),
                self.jobs@ == old(self).jobs@,
                forall|k: int| 0 <= k < i ==> self.jobs@[k].id@ != job_id@,
            decreases self.jobs@.len() - i,
        {
            if str_eq(self.jobs[i].id.as_str(), job_id) {
                let mut job = self.jobs.remove(i);
                job.retry_count = 0;
                assert(first_with_id(old(self).view(), job_id@, i as int));
                return Ok(job);
            }
            i += 1;
        }
        Err(JobError::NotFound(to_owned_string(job_id)))
    }
}

// ---------------------------------------------------------------------------
// Recurring schedule
// ---------------------------------------------------------------------------

/// A job enqueued again and again at a fixed interval.
pub struct RecurringJob {
    pub interval_secs: u64,
    pub job_type: JobType,
    pub name: String,
}

/// The maintenance schedule started with the job system: session cleanup and
/// storage metrics hourly, database backups and overdue-payment checks every
/// six hours, subscription renewal checks every twelve hours.
pub fn recurring_jobs() -> (res: Vec<RecurringJob>)
    ensures
        res@.len() == 5,
        res@[0].interval_secs == 3600 && res@[0].job_type == JobType::CleanupExpiredSessions
            && res@[0].name@ == "cleanup_sessions"@,
        res@[1].interval_secs == 21600 && res@[1].job_type == JobType::BackupDatabases
            && res@[1].name@ == "backup_databases"@,
        res@[2].interval_secs == 3600 && res@[2].job_type == JobType::UpdateStorageMetrics
            && res@[2].name@ == "update_storage"@,
        res@[3].interval_secs == 43200 && res@[3].job_type == JobType::CheckSubscriptionRenewals
            && res@[3].name@ == "check_renewals"@,
        res@[4].interval_secs == 21600 && res@[4].job_type == JobType::CheckOverduePayments
            && res@[4].name@ == "check_overdue"@,
{
    let mut v: Vec<RecurringJob> = Vec::new();
    v.push(RecurringJob { interval_secs: 3600, job_type: JobType::CleanupExpiredSessions, name: to_owned_string("cleanup_sessions") });
    v.push(RecurringJob { interval_secs: 21600, job_type: JobType::BackupDatabases, name: to_owned_string("backup_databases") });
    v.push(RecurringJob { interval_secs: 3600, job_type: JobType::UpdateStorageMetrics, name: to_owned_string("update_storage") });
    v.push(RecurringJob { interval_secs: 43200, job_type: JobType::CheckSubscriptionRenewals, name: to_owned_string("check_renewals") });
    v.push(RecurringJob { interval_secs: 21600, job_type: JobType::CheckOverduePayments, name: to_owned_string("check_overdue") });
    v
}

} // verus!
