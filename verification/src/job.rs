//! The job record: a unit of deferred work with a payload and a
//! lifecycle status, together with the spec-level model of a record
//! and the transitions that the store applies to it.

use vstd::prelude::*;

verus! {

/// Lifecycle status of a job. `Done` and `Failed` are terminal.
#[derive(Clone, Copy, Debug, PartialEq, Eq, Structural)]
pub enum JobStatus {
    /// Enqueued and waiting for its first claim.
    Pending,
    /// Claimed by a worker holding a live lease.
    Running,
    /// Failed at least once and waiting for its backoff delay to pass.
    Retrying,
    /// Completed successfully; never transitions again.
    Done,
    /// Exhausted its attempts; never transitions again.
    Failed,
}

/// A job record as persisted by the store.
///
/// `payload` is opaque serialized data meaningful only to the handler.
/// Timestamps (`run_at`, `lease_expiry`, `done_at`) are milliseconds on
/// whatever clock the caller supplies as `now`; the core never reads a
/// clock itself.
#[derive(Debug)]
pub struct Job {
    /// Unique identifier, assigned at enqueue, immutable.
    pub id: u64,
    /// Opaque serialized data for the handler.
    pub payload: String,
    /// Current lifecycle status.
    pub status: JobStatus,
    /// Count of execution attempts so far; starts at 0.
    pub attempts: u32,
    /// Earliest time the job is eligible for a claim.
    pub run_at: u64,
    /// End of the current lease while `Running`; 0 before the first claim.
    pub lease_expiry: u64,
    /// Worker holding the current lease, if any.
    pub claimed_by: Option<u64>,
    /// Detail of the last handler failure, if any.
    pub last_error: Option<String>,
    /// Time the job reached a terminal state, if it has.
    pub done_at: Option<u64>,
}

/// The mathematical model of a job record: the same fields with the
/// strings abstracted to character sequences.
pub ghost struct JobView {
    pub id: u64,
    pub payload: Seq<char>,
    pub status: JobStatus,
    pub attempts: u32,
    pub run_at: u64,
    pub lease_expiry: u64,
    pub claimed_by: Option<u64>,
    pub last_error: Option<Seq<char>>,
    pub done_at: Option<u64>,
}

impl View for Job {
    type V = JobView;

    open spec fn view(&self) -> JobView {
        JobView {
            id: self.id,
            payload: self.payload@,
            status: self.status,
            attempts: self.attempts,
            run_at: self.run_at,
            lease_expiry: self.lease_expiry,
            claimed_by: self.claimed_by,
            last_error: match self.last_error {
                Some(e) => Some(e@),
                None => None,
            },
            done_at: self.done_at,
        }
    }
}

/// Whether a status is terminal: a terminal job never transitions again.
pub open spec fn terminal(s: JobStatus) -> bool {
    s == JobStatus::Done || s == JobStatus::Failed
}

/// Whether a job may be handed to a worker at time `now`: it is waiting
/// (`Pending` or `Retrying`) and its `run_at` has passed, or it is
/// `Running` on a lease that has expired (crash-recovery reclaim).
pub open spec fn eligible(j: JobView, now: u64) -> bool {
    ((j.status == JobStatus::Pending || j.status == JobStatus::Retrying) && j.run_at <= now)
        || (j.status == JobStatus::Running && j.lease_expiry < now)
}

/// Exec mirror of [`eligible`].
pub fn is_eligible(j: &Job, now: u64) -> (r: bool)
    ensures
        r == eligible(j@, now),
{
    match j.status {
        JobStatus::Pending | JobStatus::Retrying => j.run_at <= now,
        JobStatus::Running => j.lease_expiry < now,
        JobStatus::Done | JobStatus::Failed => false,
    }
}

/// Exec mirror of [`terminal`].
pub fn is_terminal(s: JobStatus) -> (r: bool)
    ensures
        r == terminal(s),
{
    match s {
        JobStatus::Done | JobStatus::Failed => true,
        _ => false,
    }
}

impl Job {
    /// A fresh record as `enqueue` inserts it.
    pub open spec fn fresh_view(id: u64, payload: Seq<char>, now: u64) -> JobView {
        JobView {
            id,
            payload,
            status: JobStatus::Pending,
            attempts: 0,
            run_at: now,
            lease_expiry: 0,
            claimed_by: None,
            last_error: None,
            done_at: None,
        }
    }

    /// An owned copy of the record, equal to the original in the model.
    pub fn snapshot(&self) -> (r: Job)
        ensures
            r@ == self@,
    {
        Job {
            id: self.id,
            payload: self.payload.clone(),
            status: self.status,
            attempts: self.attempts,
            run_at: self.run_at,
            lease_expiry: self.lease_expiry,
            claimed_by: self.claimed_by,
            last_error: match &self.last_error {
                Some(e) => Some(e.clone()),
                None => None,
            },
            done_at: self.done_at,
        }
    }
}

} // verus!
