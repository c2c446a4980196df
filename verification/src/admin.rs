//! The admin boundary over the job queue: enqueue with validation,
//! inspection of single jobs, listing with stats, and the worker
//! overview. The enclosing service exposes these over its own
//! protocol and maps [`crate::error::Error`] to responses via
//! [`crate::error::Error::status_code`].

use vstd::prelude::*;
use vstd::string::StringExecFns;

use crate::dispatcher::{WorkerDescriptor, WorkerRegistry};
use crate::error::Error;
use crate::job::{Job, JobStatus, JobView};
use crate::store::{count_status, filtered, page_of, JobStats, JobStore};

verus! {

/// The page shown when the caller names none.
pub fn default_page() -> (r: usize)
    ensures
        r == 1,
{
    1
}

/// One page of jobs together with the queue-wide stats, as the listing
/// endpoint reports them.
pub struct JobListing {
    pub stats: JobStats,
    pub jobs: Vec<Job>,
}

/// Whether a payload is accepted at the boundary: it must not be
/// empty. Anything else is opaque to the core and judged by the
/// handler alone.
pub open spec fn payload_acceptable(payload: Seq<char>) -> bool {
    payload.len() > 0
}

/// Validates the payload and enqueues it: a new `Pending` job eligible
/// from `now`, whose id is returned. An empty payload is rejected with
/// a validation error and never reaches the store.
pub fn enqueue(store: &mut JobStore, payload: String, now: u64) -> (r: Result<u64, Error>)
    requires
        old(store).wf(),
        old(store).next_id() < u64::MAX,
    ensures
        final(store).wf(),
        final(store).config() == old(store).config(),
        match r {
            Ok(id) => {
                &&& payload_acceptable(payload@)
                &&& id == old(store).next_id()
                &&& final(store).jobs() == old(store).jobs().push(
                    Job::fresh_view(id, payload@, now),
                )
                &&& final(store).next_id() == old(store).next_id() + 1
            },
            Err(e) => {
                &&& !payload_acceptable(payload@)
                &&& e is Validation
                &&& final(store).jobs() == old(store).jobs()
                &&& final(store).next_id() == old(store).next_id()
            },
        },
{
    if payload.as_str().is_empty() {
        return Err(Error::Validation(String::from_str("payload must not be empty")));
    }
    Ok(store.enqueue(payload, now))
}

/// Looks a job up for inspection: `NotFound` when absent.
pub fn get(store: &JobStore, job_id: u64) -> (r: Result<Job, Error>)
    requires
        store.wf(),
    ensures
        match r {
            Ok(j) => exists|i: int|
                0 <= i < store.jobs().len() && (#[trigger] store.jobs()[i]).id == job_id && j@
                    == store.jobs()[i],
            Err(e) => e is NotFound && forall|i: int|
                0 <= i < store.jobs().len() ==> (#[trigger] store.jobs()[i]).id != job_id,
        },
{
    match store.fetch(job_id) {
        Some(j) => Ok(j),
        None => Err(Error::NotFound),
    }
}

/// One page of the queue under a status filter, with the counts per
/// status over the whole queue.
pub fn list(store: &JobStore, status: Option<JobStatus>, page: usize) -> (r: JobListing)
    requires
        store.wf(),
        1 <= page,
    ensures
        r.jobs@.map_values(|j: Job| j@) == page_of(filtered(store.jobs(), status), page),
        r.stats.pending == count_status(store.jobs(), JobStatus::Pending),
        r.stats.running == count_status(store.jobs(), JobStatus::Running),
        r.stats.retrying == count_status(store.jobs(), JobStatus::Retrying),
        r.stats.done == count_status(store.jobs(), JobStatus::Done),
        r.stats.failed == count_status(store.jobs(), JobStatus::Failed),
{
    JobListing { stats: store.stats(), jobs: store.list(status, page) }
}

/// The active worker descriptors — informational only, no mutation.
pub fn list_workers(registry: &WorkerRegistry) -> (r: Vec<WorkerDescriptor>)
    ensures
        r@ == registry.workers(),
{
    registry.list()
}

} // verus!
