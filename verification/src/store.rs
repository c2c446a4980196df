//! The durable job store: the sole source of truth for job state.
//!
//! Every mutating operation (`enqueue`, `claim_next`, `complete`, `fail`)
//! takes the store by exclusive reference and is therefore atomic with
//! respect to every other operation; callers that share the store across
//! tasks wrap it in a mutual-exclusion lock and hold the lock only for
//! the duration of the operation, never across a handler invocation.

use vstd::prelude::*;

use crate::job::{eligible, is_eligible, is_terminal, terminal, Job, JobStatus, JobView};

verus! {

/// Configuration of the store's retry policy.
#[derive(Clone, Copy, Debug, PartialEq, Eq, Structural)]
pub struct StoreConfig {
    /// Total number of execution attempts a job is allowed before it is
    /// marked `Failed`. Must be at least 1.
    pub max_attempts: u32,
    /// Backoff delay after the first failed attempt, in milliseconds.
    pub backoff_base_ms: u64,
    /// Upper bound on the backoff delay, in milliseconds.
    pub backoff_cap_ms: u64,
}

/// Validity of a configuration: at least one attempt, and a positive
/// backoff base no larger than the cap.
pub open spec fn config_wf(cfg: StoreConfig) -> bool {
    &&& 1 <= cfg.max_attempts
    &&& 1 <= cfg.backoff_base_ms
    &&& cfg.backoff_base_ms <= cfg.backoff_cap_ms
}

/// The backoff curve: exponential with a cap. The delay before attempt
/// `n` becomes eligible again starts at `base` after the first failure
/// and doubles with each further failure, saturating at `cap`.
pub open spec fn backoff(n: u32, base: u64, cap: u64) -> u64
    decreases n,
{
    if n <= 1 {
        if base <= cap {
            base
        } else {
            cap
        }
    } else {
        let p = backoff((n - 1) as u32, base, cap);
        if p <= cap / 2 {
            (p + p) as u64
        } else {
            cap
        }
    }
}

/// The backoff delay never exceeds the cap.
pub proof fn lemma_backoff_le_cap(n: u32, base: u64, cap: u64)
    requires
        base <= cap,
    ensures
        backoff(n, base, cap) <= cap,
    decreases n,
{
    if n > 1 {
        lemma_backoff_le_cap((n - 1) as u32, base, cap);
    }
}

/// Exec mirror of [`backoff`].
pub fn backoff_ms(n: u32, base: u64, cap: u64) -> (r: u64)
    requires
        1 <= base <= cap,
    ensures
        r == backoff(n, base, cap),
{
    let steps: u32 = if n <= 1 {
        1
    } else {
        n
    };
    let mut d: u64 = base;
    let mut i: u32 = 1;
    while i < steps
        invariant
            base <= cap,
            1 <= i <= steps,
            d == backoff(i, base, cap),
        decreases steps - i,
    {
        proof {
            lemma_backoff_le_cap(i, base, cap);
        }
        if d <= cap / 2 {
            d = d + d;
        } else {
            d = cap;
        }
        i = i + 1;
    }
    d
}

/// No two records share an id.
pub open spec fn unique_ids(s: Seq<JobView>) -> bool {
    forall|i: int, k: int|
        0 <= i < s.len() && 0 <= k < s.len() && i != k ==> s[i].id != s[k].id
}

/// Well-formedness of the stored records against the id counter and the
/// retry policy: ids are unique and below the counter, attempt counts
/// respect the bound, and a job that has exhausted its attempts is
/// `Failed`.
pub open spec fn store_wf(s: Seq<JobView>, next_id: u64, cfg: StoreConfig) -> bool {
    &&& unique_ids(s)
    &&& forall|i: int| 0 <= i < s.len() ==> (#[trigger] s[i]).id < next_id
    &&& forall|i: int| 0 <= i < s.len() ==> (#[trigger] s[i]).attempts <= cfg.max_attempts
    &&& forall|i: int|
        0 <= i < s.len() && (#[trigger] s[i]).attempts == cfg.max_attempts ==> s[i].status
            == JobStatus::Failed
}

/// Claim order: earlier `run_at` first, ties broken by smaller id.
pub open spec fn precedes(a: JobView, b: JobView) -> bool {
    a.run_at < b.run_at || (a.run_at == b.run_at && a.id <= b.id)
}

/// `i` indexes the record `claim_next` picks at time `now`: an eligible
/// record that precedes every other eligible record.
pub open spec fn best_at(s: Seq<JobView>, now: u64, i: int) -> bool {
    &&& 0 <= i < s.len()
    &&& eligible(s[i], now)
    &&& forall|k: int| 0 <= k < s.len() && eligible(#[trigger] s[k], now) ==> precedes(s[i], s[k])
}

/// The record `j` after a successful claim by `worker` at `now`:
/// `Running`, holding a lease until `now + lease`.
pub open spec fn claimed_job(j: JobView, worker: u64, now: u64, lease: u64) -> JobView {
    JobView {
        status: JobStatus::Running,
        lease_expiry: (now + lease) as u64,
        claimed_by: Some(worker),
        ..j
    }
}

/// One successful claim transition of the whole store: the picked
/// record becomes `j`; every other record is untouched.
pub open spec fn claim_step(
    pre: Seq<JobView>,
    post: Seq<JobView>,
    j: JobView,
    worker: u64,
    lease: u64,
    now: u64,
) -> bool {
    exists|i: int|
        #[trigger] best_at(pre, now, i) && j == claimed_job(pre[i], worker, now, lease) && post
            == pre.update(i, j)
}

/// The record `j` after `fail` is reported on it at `now`: attempts are
/// counted up; below the bound the job waits for its backoff delay in
/// `Retrying`, at the bound it is `Failed` for good. A terminal record
/// is left untouched.
pub open spec fn fail_view(j: JobView, err: Seq<char>, now: u64, cfg: StoreConfig) -> JobView {
    if terminal(j.status) {
        j
    } else {
        let a = (j.attempts + 1) as u32;
        if a < cfg.max_attempts {
            JobView {
                status: JobStatus::Retrying,
                attempts: a,
                run_at: (now + backoff(a, cfg.backoff_base_ms, cfg.backoff_cap_ms)) as u64,
                claimed_by: None,
                last_error: Some(err),
                ..j
            }
        } else {
            JobView {
                status: JobStatus::Failed,
                attempts: a,
                claimed_by: None,
                last_error: Some(err),
                done_at: Some(now),
                ..j
            }
        }
    }
}

/// The record `j` after `complete` is reported on it at `now`: `Done`,
/// with the completion time recorded. A terminal record is left
/// untouched, which makes `complete` idempotent on `Done` and keeps a
/// `Failed` record from ever transitioning again.
pub open spec fn complete_view(j: JobView, now: u64) -> JobView {
    if terminal(j.status) {
        j
    } else {
        JobView { status: JobStatus::Done, claimed_by: None, done_at: Some(now), ..j }
    }
}

/// Whether a record passes a status filter; no filter passes all.
pub open spec fn matches_filter(j: JobView, f: Option<JobStatus>) -> bool {
    match f {
        None => true,
        Some(st) => j.status == st,
    }
}

/// The records passing a status filter, in stored (insertion) order.
pub open spec fn filtered(s: Seq<JobView>, f: Option<JobStatus>) -> Seq<JobView>
    decreases s.len(),
{
    if s.len() == 0 {
        Seq::empty()
    } else {
        let rest = filtered(s.drop_last(), f);
        if matches_filter(s.last(), f) {
            rest.push(s.last())
        } else {
            rest
        }
    }
}

/// Filtering never grows a sequence.
pub proof fn lemma_filtered_len(s: Seq<JobView>, f: Option<JobStatus>)
    ensures
        filtered(s, f).len() <= s.len(),
    decreases s.len(),
{
    if s.len() > 0 {
        lemma_filtered_len(s.drop_last(), f);
    }
}

/// Extending a prefix by one record extends its filtering by that
/// record exactly when the record passes the filter.
pub proof fn lemma_filtered_step(s: Seq<JobView>, f: Option<JobStatus>, i: int)
    requires
        0 <= i < s.len(),
    ensures
        filtered(s.subrange(0, i + 1), f) == if matches_filter(s[i], f) {
            filtered(s.subrange(0, i), f).push(s[i])
        } else {
            filtered(s.subrange(0, i), f)
        },
{
    assert(s.subrange(0, i + 1).drop_last() =~= s.subrange(0, i));
    assert(s.subrange(0, i + 1).last() == s[i]);
}

/// Number of jobs per page returned by [`JobStore::list`].
pub const PAGE_SIZE: usize = 10;

/// The 1-based page `page` of a sequence: records `(page-1)*PAGE_SIZE`
/// up to but excluding `page*PAGE_SIZE`, clipped to the sequence.
pub open spec fn page_of(s: Seq<JobView>, page: usize) -> Seq<JobView> {
    let start = (page - 1) * (PAGE_SIZE as int);
    if start >= s.len() {
        Seq::empty()
    } else if start + (PAGE_SIZE as int) <= s.len() {
        s.subrange(start, start + (PAGE_SIZE as int))
    } else {
        s.subrange(start, s.len() as int)
    }
}

/// Counts per status, as reported by [`JobStore::stats`].
#[derive(Clone, Copy, Debug, PartialEq, Eq, Structural)]
pub struct JobStats {
    pub pending: usize,
    pub running: usize,
    pub retrying: usize,
    pub done: usize,
    pub failed: usize,
}

/// The number of stored records with the given status.
pub open spec fn count_status(s: Seq<JobView>, st: JobStatus) -> int {
    filtered(s, Some(st)).len() as int
}

/// Exec mirror of [`matches_filter`].
fn status_matches(j: &Job, f: Option<JobStatus>) -> (r: bool)
    ensures
        r == matches_filter(j@, f),
{
    match f {
        None => true,
        Some(st) => j.status == st,
    }
}

/// Error of an operation that requires an existing job.
#[derive(Clone, Copy, Debug, PartialEq, Eq, Structural)]
pub enum StoreError {
    /// No job with the requested id exists.
    NotFound,
}

/// Durable, transactional storage of job records.
pub struct JobStore {
    config: StoreConfig,
    next_id: u64,
    jobs: Vec<Job>,
}

impl JobStore {
    /// The stored records, in insertion order.
    pub closed spec fn jobs(&self) -> Seq<JobView> {
        self.jobs@.map_values(|j: Job| j@)
    }

    /// The retry policy this store was created with.
    pub closed spec fn config(&self) -> StoreConfig {
        self.config
    }

    /// The id the next enqueued job will receive.
    pub closed spec fn next_id(&self) -> u64 {
        self.next_id
    }

    /// Validity of the store.
    pub open spec fn wf(&self) -> bool {
        &&& config_wf(self.config())
        &&& store_wf(self.jobs(), self.next_id(), self.config())
    }

    /// An empty store with the given retry policy.
    pub fn new(config: StoreConfig) -> (r: JobStore)
        requires
            1 <= config.max_attempts,
            1 <= config.backoff_base_ms <= config.backoff_cap_ms,
        ensures
            r.wf(),
            r.jobs() == Seq::<JobView>::empty(),
            r.next_id() == 0,
            r.config() == config,
    {
        let r = JobStore { config, next_id: 0, jobs: Vec::new() };
        proof {
            assert(r.jobs() =~= Seq::<JobView>::empty());
        }
        r
    }

    /// The id the next enqueued job will receive.
    pub fn next_job_id(&self) -> (r: u64)
        ensures
            r == self.next_id(),
    {
        self.next_id
    }

    /// The retry policy this store was created with.
    pub fn policy(&self) -> (r: StoreConfig)
        ensures
            r == self.config(),
    {
        self.config
    }

    /// Inserts a new job with the given payload: `Pending`, no attempts
    /// yet, eligible from `now` on. Returns the job's id.
    pub fn enqueue(&mut self, payload: String, now: u64) -> (r: u64)
        requires
            old(self).wf(),
            old(self).next_id() < u64::MAX,
        ensures
            final(self).wf(),
            final(self).config() == old(self).config(),
            r == old(self).next_id(),
            final(self).next_id() == old(self).next_id() + 1,
            final(self).jobs() == old(self).jobs().push(Job::fresh_view(r, payload@, now)),
    {
        let ghost p = payload@;
        let id = self.next_id;
        let job = Job {
            id,
            payload,
            status: JobStatus::Pending,
            attempts: 0,
            run_at: now,
            lease_expiry: 0,
            claimed_by: None,
            last_error: None,
            done_at: None,
        };
        self.next_id = self.next_id + 1;
        self.jobs.push(job);
        proof {
            assert(self.jobs() =~= old(self).jobs().push(Job::fresh_view(id, p, now)));
        }
        id
    }

    /// Looks a job up by id; returns an owned copy, or `None` when no
    /// such job exists.
    pub fn fetch(&self, job_id: u64) -> (r: Option<Job>)
        requires
            self.wf(),
        ensures
            match r {
                None => forall|i: int|
                    0 <= i < self.jobs().len() ==> (#[trigger] self.jobs()[i]).id != job_id,
                Some(j) => exists|i: int|
                    0 <= i < self.jobs().len() && (#[trigger] self.jobs()[i]).id == job_id
                        && j@ == self.jobs()[i],
            },
    {
        let n = self.jobs.len();
        let mut idx: usize = 0;
        while idx < n
            invariant
                n == self.jobs.len(),
                0 <= idx <= n,
                forall|i: int| 0 <= i < idx ==> (#[trigger] self.jobs()[i]).id != job_id,
            decreases n - idx,
        {
            if self.jobs[idx].id == job_id {
                let out = self.jobs[idx].snapshot();
                proof {
                    assert(self.jobs()[idx as int] == self.jobs@[idx as int]@);
                    assert(self.jobs()[idx as int].id == job_id);
                }
                return Some(out);
            }
            idx = idx + 1;
        }
        None
    }

    /// Atomically selects the earliest eligible job — one waiting whose
    /// `run_at` has passed, or one `Running` whose lease has expired —
    /// marks it `Running` on a lease of `lease_ms` held by `worker_id`,
    /// and returns a copy of it. Returns `None`, changing nothing, when
    /// no job is eligible at `now`.
    pub fn claim_next(&mut self, worker_id: u64, lease_ms: u64, now: u64) -> (r: Option<Job>)
        requires
            old(self).wf(),
            now + lease_ms <= u64::MAX,
        ensures
            final(self).wf(),
            final(self).config() == old(self).config(),
            final(self).next_id() == old(self).next_id(),
            match r {
                None => final(self).jobs() == old(self).jobs() && forall|i: int|
                    0 <= i < old(self).jobs().len() ==> !eligible(
                        #[trigger] old(self).jobs()[i],
                        now,
                    ),
                Some(j) => {
                    &&& claim_step(old(self).jobs(), final(self).jobs(), j@, worker_id, lease_ms, now)
                    &&& j@.status == JobStatus::Running
                    &&& j@.lease_expiry == now + lease_ms
                    &&& j@.claimed_by == Some(worker_id)
                },
            },
    {
        let ghost pre = self.jobs();
        let n = self.jobs.len();
        let mut best: usize = 0;
        let mut found = false;
        let mut idx: usize = 0;
        while idx < n
            invariant
                self == old(self),
                old(self).wf(),
                n == self.jobs.len(),
                pre == self.jobs(),
                0 <= idx <= n,
                found ==> best < idx,
                found ==> eligible(pre[best as int], now),
                found ==> forall|k: int|
                    0 <= k < idx && eligible(#[trigger] pre[k], now) ==> precedes(
                        pre[best as int],
                        pre[k],
                    ),
                !found ==> forall|k: int| 0 <= k < idx ==> !eligible(#[trigger] pre[k], now),
            decreases n - idx,
        {
            proof {
                assert(pre[idx as int] == self.jobs@[idx as int]@);
            }
            let cand_eligible = is_eligible(&self.jobs[idx], now);
            if cand_eligible {
                if !found {
                    best = idx;
                    found = true;
                } else {
                    proof {
                        assert(pre[best as int] == self.jobs@[best as int]@);
                    }
                    let take = self.jobs[idx].run_at < self.jobs[best].run_at || (self.jobs[idx].run_at
                        == self.jobs[best].run_at && self.jobs[idx].id < self.jobs[best].id);
                    if take {
                        best = idx;
                    }
                }
            }
            idx = idx + 1;
        }
        if !found {
            return None;
        }
        proof {
            assert(best_at(pre, now, best as int));
            // An eligible record cannot be `Failed`, so it has attempts
            // to spare.
            assert(pre[best as int].attempts < self.config.max_attempts);
        }
        let mut j = self.jobs.remove(best);
        j.status = JobStatus::Running;
        j.lease_expiry = now + lease_ms;
        j.claimed_by = Some(worker_id);
        let out = j.snapshot();
        let ghost jv = j@;
        self.jobs.insert(best, j);
        proof {
            assert(self.jobs() =~= pre.update(best as int, jv));
            assert(jv == claimed_job(pre[best as int], worker_id, now, lease_ms));
        }
        Some(out)
    }

    /// Marks the job `Done` at `now`. Idempotent when the job is
    /// already `Done`; leaves a `Failed` job untouched; fails with
    /// `NotFound` when no such job exists.
    pub fn complete(&mut self, job_id: u64, now: u64) -> (r: Result<(), StoreError>)
        requires
            old(self).wf(),
        ensures
            final(self).wf(),
            final(self).config() == old(self).config(),
            final(self).next_id() == old(self).next_id(),
            match r {
                Err(StoreError::NotFound) => final(self).jobs() == old(self).jobs() && forall|
                    i: int,
                |
                    0 <= i < old(self).jobs().len() ==> (#[trigger] old(self).jobs()[i]).id
                        != job_id,
                Ok(()) => exists|i: int|
                    0 <= i < old(self).jobs().len() && (#[trigger] old(self).jobs()[i]).id
                        == job_id && final(self).jobs() == old(self).jobs().update(
                        i,
                        complete_view(old(self).jobs()[i], now),
                    ),
            },
    {
        let ghost pre = self.jobs();
        let n = self.jobs.len();
        let mut idx: usize = 0;
        while idx < n
            invariant
                self == old(self),
                old(self).wf(),
                n == self.jobs.len(),
                pre == self.jobs(),
                0 <= idx <= n,
                forall|i: int| 0 <= i < idx ==> (#[trigger] pre[i]).id != job_id,
            decreases n - idx,
        {
            proof {
                assert(pre[idx as int] == self.jobs@[idx as int]@);
            }
            if self.jobs[idx].id == job_id {
                let mut j = self.jobs.remove(idx);
                if !is_terminal(j.status) {
                    j.status = JobStatus::Done;
                    j.claimed_by = None;
                    j.done_at = Some(now);
                }
                let ghost jv = j@;
                self.jobs.insert(idx, j);
                proof {
                    assert(jv == complete_view(pre[idx as int], now));
                    assert(self.jobs() =~= pre.update(idx as int, jv));
                }
                return Ok(());
            }
            idx = idx + 1;
        }
        Err(StoreError::NotFound)
    }

    /// Records a failed execution attempt with its error detail at
    /// `now`: counts the attempt and either schedules a retry after the
    /// backoff delay or, when the attempt bound is reached, marks the
    /// job `Failed` for good. Leaves a terminal job untouched; fails
    /// with `NotFound` when no such job exists.
    pub fn fail(&mut self, job_id: u64, error: String, now: u64) -> (r: Result<(), StoreError>)
        requires
            old(self).wf(),
            now + old(self).config().backoff_cap_ms <= u64::MAX,
        ensures
            final(self).wf(),
            final(self).config() == old(self).config(),
            final(self).next_id() == old(self).next_id(),
            match r {
                Err(StoreError::NotFound) => final(self).jobs() == old(self).jobs() && forall|
                    i: int,
                |
                    0 <= i < old(self).jobs().len() ==> (#[trigger] old(self).jobs()[i]).id
                        != job_id,
                Ok(()) => exists|i: int|
                    0 <= i < old(self).jobs().len() && (#[trigger] old(self).jobs()[i]).id
                        == job_id && final(self).jobs() == old(self).jobs().update(
                        i,
                        fail_view(old(self).jobs()[i], error@, now, old(self).config()),
                    ),
            },
    {
        let ghost pre = self.jobs();
        let ghost e = error@;
        let cfg = self.config;
        let n = self.jobs.len();
        let mut idx: usize = 0;
        while idx < n
            invariant
                self == old(self),
                old(self).wf(),
                now + old(self).config().backoff_cap_ms <= u64::MAX,
                n == self.jobs.len(),
                pre == self.jobs(),
                cfg == self.config,
                e == error@,
                0 <= idx <= n,
                forall|i: int| 0 <= i < idx ==> (#[trigger] pre[i]).id != job_id,
            decreases n - idx,
        {
            proof {
                assert(pre[idx as int] == self.jobs@[idx as int]@);
            }
            if self.jobs[idx].id == job_id {
                let mut j = self.jobs.remove(idx);
                if !is_terminal(j.status) {
                    proof {
                        assert(j@ == pre[idx as int]);
                        assert(j@.attempts < cfg.max_attempts);
                        lemma_backoff_le_cap(
                            (j.attempts + 1) as u32,
                            cfg.backoff_base_ms,
                            cfg.backoff_cap_ms,
                        );
                    }
                    j.attempts = j.attempts + 1;
                    j.claimed_by = None;
                    j.last_error = Some(error);
                    if j.attempts < cfg.max_attempts {
                        j.status = JobStatus::Retrying;
                        j.run_at = now + backoff_ms(
                            j.attempts,
                            cfg.backoff_base_ms,
                            cfg.backoff_cap_ms,
                        );
                    } else {
                        j.status = JobStatus::Failed;
                        j.done_at = Some(now);
                    }
                }
                let ghost jv = j@;
                self.jobs.insert(idx, j);
                proof {
                    assert(jv == fail_view(pre[idx as int], e, now, cfg));
                    assert(self.jobs() =~= pre.update(idx as int, jv));
                }
                return Ok(());
            }
            idx = idx + 1;
        }
        Err(StoreError::NotFound)
    }

    /// Returns one page of the jobs passing the status filter, in
    /// insertion order. Pages are 1-based and hold [`PAGE_SIZE`] jobs;
    /// a page past the end is empty.
    pub fn list(&self, status_filter: Option<JobStatus>, page: usize) -> (r: Vec<Job>)
        requires
            self.wf(),
            1 <= page,
        ensures
            r@.map_values(|j: Job| j@) == page_of(filtered(self.jobs(), status_filter), page),
    {
        let mut all: Vec<Job> = Vec::new();
        let n = self.jobs.len();
        let mut idx: usize = 0;
        proof {
            assert(self.jobs().subrange(0, 0) =~= Seq::<JobView>::empty());
        }
        while idx < n
            invariant
                n == self.jobs.len(),
                0 <= idx <= n,
                all@.map_values(|j: Job| j@) == filtered(
                    self.jobs().subrange(0, idx as int),
                    status_filter,
                ),
            decreases n - idx,
        {
            proof {
                assert(self.jobs()[idx as int] == self.jobs@[idx as int]@);
                lemma_filtered_step(self.jobs(), status_filter, idx as int);
            }
            let ghost prev = all@.map_values(|j: Job| j@);
            if status_matches(&self.jobs[idx], status_filter) {
                all.push(self.jobs[idx].snapshot());
                proof {
                    assert(all@.map_values(|j: Job| j@) =~= prev.push(self.jobs()[idx as int]));
                }
            }
            idx = idx + 1;
        }
        proof {
            assert(self.jobs().subrange(0, n as int) =~= self.jobs());
        }
        let ghost f = filtered(self.jobs(), status_filter);
        let total = all.len();
        let mut out: Vec<Job> = Vec::new();
        if page - 1 > total / PAGE_SIZE {
            proof {
                assert((page - 1) * (PAGE_SIZE as int) >= (total / PAGE_SIZE + 1) * (
                PAGE_SIZE as int)) by (nonlinear_arith)
                    requires
                        page - 1 > total / PAGE_SIZE,
                ;
                assert(total < (total / PAGE_SIZE + 1) * (PAGE_SIZE as int));
                assert(out@.map_values(|j: Job| j@) =~= page_of(f, page));
            }
            return out;
        }
        let start: usize = (page - 1) * PAGE_SIZE;
        proof {
            assert((page - 1) * (PAGE_SIZE as int) <= (total / PAGE_SIZE) * (PAGE_SIZE as int))
                by (nonlinear_arith)
                requires
                    page - 1 <= total / PAGE_SIZE,
            ;
            assert((total / PAGE_SIZE) * (PAGE_SIZE as int) <= total);
        }
        let end: usize = if total - start < PAGE_SIZE {
            total
        } else {
            start + PAGE_SIZE
        };
        let mut i: usize = start;
        while i < end
            invariant
                start <= i <= end <= total,
                total == all.len(),
                f == all@.map_values(|j: Job| j@),
                out@.map_values(|j: Job| j@) == f.subrange(start as int, i as int),
            decreases end - i,
        {
            let ghost prev = out@.map_values(|j: Job| j@);
            out.push(all[i].snapshot());
            proof {
                assert(out@.map_values(|j: Job| j@) =~= prev.push(f[i as int]));
                assert(f.subrange(start as int, i + 1) =~= f.subrange(start as int, i as int).push(
                    f[i as int],
                ));
            }
            i = i + 1;
        }
        proof {
            assert(out@.map_values(|j: Job| j@) =~= page_of(f, page));
        }
        out
    }

    /// Counts of stored jobs per status.
    pub fn stats(&self) -> (r: JobStats)
        requires
            self.wf(),
        ensures
            r.pending == count_status(self.jobs(), JobStatus::Pending),
            r.running == count_status(self.jobs(), JobStatus::Running),
            r.retrying == count_status(self.jobs(), JobStatus::Retrying),
            r.done == count_status(self.jobs(), JobStatus::Done),
            r.failed == count_status(self.jobs(), JobStatus::Failed),
    {
        let mut r = JobStats { pending: 0, running: 0, retrying: 0, done: 0, failed: 0 };
        let n = self.jobs.len();
        let mut idx: usize = 0;
        proof {
            assert(self.jobs().subrange(0, 0) =~= Seq::<JobView>::empty());
        }
        while idx < n
            invariant
                n == self.jobs.len(),
                0 <= idx <= n,
                r.pending == count_status(self.jobs().subrange(0, idx as int), JobStatus::Pending),
                r.running == count_status(self.jobs().subrange(0, idx as int), JobStatus::Running),
                r.retrying == count_status(
                    self.jobs().subrange(0, idx as int),
                    JobStatus::Retrying,
                ),
                r.done == count_status(self.jobs().subrange(0, idx as int), JobStatus::Done),
                r.failed == count_status(self.jobs().subrange(0, idx as int), JobStatus::Failed),
            decreases n - idx,
        {
            proof {
                assert(self.jobs()[idx as int] == self.jobs@[idx as int]@);
                lemma_filtered_step(self.jobs(), Some(JobStatus::Pending), idx as int);
                lemma_filtered_step(self.jobs(), Some(JobStatus::Running), idx as int);
                lemma_filtered_step(self.jobs(), Some(JobStatus::Retrying), idx as int);
                lemma_filtered_step(self.jobs(), Some(JobStatus::Done), idx as int);
                lemma_filtered_step(self.jobs(), Some(JobStatus::Failed), idx as int);
                lemma_filtered_len(self.jobs().subrange(0, idx as int), Some(JobStatus::Pending));
                lemma_filtered_len(self.jobs().subrange(0, idx as int), Some(JobStatus::Running));
                lemma_filtered_len(self.jobs().subrange(0, idx as int), Some(JobStatus::Retrying));
                lemma_filtered_len(self.jobs().subrange(0, idx as int), Some(JobStatus::Done));
                lemma_filtered_len(self.jobs().subrange(0, idx as int), Some(JobStatus::Failed));
            }
            match self.jobs[idx].status {
                JobStatus::Pending => r.pending = r.pending + 1,
                JobStatus::Running => r.running = r.running + 1,
                JobStatus::Retrying => r.retrying = r.retrying + 1,
                JobStatus::Done => r.done = r.done + 1,
                JobStatus::Failed => r.failed = r.failed + 1,
            }
            idx = idx + 1;
        }
        proof {
            assert(self.jobs().subrange(0, n as int) =~= self.jobs());
        }
        r
    }
}

} // verus!
