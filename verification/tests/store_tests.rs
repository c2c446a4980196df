use nohead_rs::job::JobStatus;
use nohead_rs::store::{backoff_ms, JobStore, StoreConfig, StoreError, PAGE_SIZE};

fn test_config() -> StoreConfig {
    StoreConfig { max_attempts: 3, backoff_base_ms: 100, backoff_cap_ms: 1000 }
}

fn store() -> JobStore {
    JobStore::new(test_config())
}

#[test]
fn enqueue_assigns_sequential_ids_and_pending_status() {
    let mut s = store();
    let a = s.enqueue(String::from("one"), 10);
    let b = s.enqueue(String::from("two"), 10);
    assert_eq!(a, 0);
    assert_eq!(b, 1);
    let ja = s.fetch(a).unwrap();
    assert_eq!(ja.status, JobStatus::Pending);
    assert_eq!(ja.attempts, 0);
    assert_eq!(ja.run_at, 10);
    assert_eq!(ja.payload, "one");
}

#[test]
fn end_to_end_enqueue_claim_complete() {
    let mut s = store();
    let id = s.enqueue(String::from("X"), 0);
    let job = s.claim_next(7, 500, 1).expect("one job is eligible");
    assert_eq!(job.id, id);
    assert_eq!(job.payload, "X");
    assert_eq!(job.status, JobStatus::Running);
    assert_eq!(job.lease_expiry, 501);
    assert_eq!(job.claimed_by, Some(7));
    s.complete(id, 2).unwrap();
    let done = s.fetch(id).unwrap();
    assert_eq!(done.status, JobStatus::Done);
    assert_eq!(done.done_at, Some(2));
}

#[test]
fn single_job_two_claims_one_winner() {
    // Two back-to-back claim calls against one pending job: exactly
    // one caller gets it.
    let mut s = store();
    s.enqueue(String::from("only"), 0);
    let first = s.claim_next(1, 1000, 5);
    let second = s.claim_next(2, 1000, 5);
    assert!(first.is_some());
    assert!(second.is_none());
}

#[test]
fn m_jobs_n_claims_each_job_claimed_once() {
    let mut s = store();
    for k in 0..3u64 {
        s.enqueue(format!("job-{}", k), 0);
    }
    let mut won = Vec::new();
    for worker in 0..5u64 {
        if let Some(j) = s.claim_next(worker, 1000, 1) {
            won.push(j.id);
        }
    }
    assert_eq!(won.len(), 3);
    let mut sorted = won.clone();
    sorted.sort();
    sorted.dedup();
    assert_eq!(sorted.len(), 3, "no job id may be claimed twice");
}

#[test]
fn claim_order_is_earliest_run_at_then_id() {
    let mut s = store();
    let _late = s.enqueue(String::from("late"), 50);
    let early = s.enqueue(String::from("early"), 10);
    let tie = s.enqueue(String::from("tie"), 10);
    let first = s.claim_next(1, 100, 100).unwrap();
    assert_eq!(first.id, early, "earliest run_at, then smaller id, wins");
    let second = s.claim_next(1, 100, 100).unwrap();
    assert_eq!(second.id, tie);
}

#[test]
fn job_not_eligible_before_run_at() {
    let mut s = store();
    s.enqueue(String::from("later"), 100);
    assert!(s.claim_next(1, 10, 99).is_none());
    assert!(s.claim_next(1, 10, 100).is_some());
}

#[test]
fn crash_reclaim_returns_expired_job_exactly_once_per_cycle() {
    let mut s = store();
    let id = s.enqueue(String::from("crashy"), 0);
    let j = s.claim_next(1, 100, 0).unwrap();
    assert_eq!(j.id, id);
    // Lease until 100: not reclaimable at 100 ...
    assert!(s.claim_next(2, 100, 100).is_none());
    // ... but reclaimable once past it, by exactly one caller.
    let r1 = s.claim_next(2, 100, 101);
    let r2 = s.claim_next(3, 100, 101);
    assert_eq!(r1.unwrap().id, id);
    assert!(r2.is_none());
}

#[test]
fn fail_schedules_retry_with_backoff_then_fails_for_good() {
    let mut s = store();
    let id = s.enqueue(String::from("flaky"), 0);
    s.claim_next(1, 10, 0).unwrap();
    s.fail(id, String::from("boom 1"), 100).unwrap();
    let j = s.fetch(id).unwrap();
    assert_eq!(j.status, JobStatus::Retrying);
    assert_eq!(j.attempts, 1);
    assert_eq!(j.run_at, 100 + 100, "first retry waits the base backoff");
    assert_eq!(j.last_error, Some(String::from("boom 1")));

    s.claim_next(1, 10, 300).unwrap();
    s.fail(id, String::from("boom 2"), 300).unwrap();
    let j = s.fetch(id).unwrap();
    assert_eq!(j.status, JobStatus::Retrying);
    assert_eq!(j.attempts, 2);
    assert_eq!(j.run_at, 300 + 200, "second retry waits twice the base");

    s.claim_next(1, 10, 600).unwrap();
    s.fail(id, String::from("boom 3"), 600).unwrap();
    let j = s.fetch(id).unwrap();
    assert_eq!(j.status, JobStatus::Failed);
    assert_eq!(j.attempts, 3);
    assert_eq!(j.done_at, Some(600));
}

#[test]
fn bounded_retries_further_fail_changes_nothing() {
    let mut s = store();
    let id = s.enqueue(String::from("doomed"), 0);
    for k in 0..3 {
        s.claim_next(1, 10, 1000 * k).unwrap();
        s.fail(id, format!("err {}", k), 1000 * k).unwrap();
    }
    let before = s.fetch(id).unwrap();
    assert_eq!(before.status, JobStatus::Failed);
    assert_eq!(before.attempts, 3);
    // A further fail is accepted but changes neither attempts nor run_at.
    s.fail(id, String::from("too late"), 9999).unwrap();
    let after = s.fetch(id).unwrap();
    assert_eq!(after.status, JobStatus::Failed);
    assert_eq!(after.attempts, before.attempts);
    assert_eq!(after.run_at, before.run_at);
    assert_eq!(after.last_error, before.last_error);
}

#[test]
fn handler_that_eventually_succeeds_reaches_done() {
    let mut s = store();
    let id = s.enqueue(String::from("second time lucky"), 0);
    s.claim_next(1, 10, 0).unwrap();
    s.fail(id, String::from("first try"), 10).unwrap();
    let j = s.claim_next(1, 10, 500).expect("eligible again after backoff");
    assert_eq!(j.id, id);
    s.complete(id, 501).unwrap();
    assert_eq!(s.fetch(id).unwrap().status, JobStatus::Done);
}

#[test]
fn complete_is_idempotent_and_keeps_failed_jobs_failed() {
    let mut s = store();
    let id = s.enqueue(String::from("a"), 0);
    s.complete(id, 5).unwrap();
    s.complete(id, 9).unwrap();
    let j = s.fetch(id).unwrap();
    assert_eq!(j.status, JobStatus::Done);
    assert_eq!(j.done_at, Some(5), "second complete changes nothing");

    let id2 = s.enqueue(String::from("b"), 0);
    for k in 0..3 {
        let t = 1000 * k;
        s.claim_next(1, 10, t).unwrap();
        s.fail(id2, String::from("e"), t).unwrap();
    }
    s.complete(id2, 99).unwrap();
    assert_eq!(s.fetch(id2).unwrap().status, JobStatus::Failed);
}

#[test]
fn complete_and_fail_unknown_id_not_found() {
    let mut s = store();
    assert_eq!(s.complete(42, 0), Err(StoreError::NotFound));
    assert_eq!(s.fail(42, String::from("x"), 0), Err(StoreError::NotFound));
    assert!(s.fetch(42).is_none());
}

#[test]
fn claim_on_empty_store_returns_none() {
    let mut s = store();
    assert!(s.claim_next(1, 100, 0).is_none());
}

#[test]
fn complete_works_without_a_claim() {
    let mut s = store();
    let id = s.enqueue(String::from("quick"), 0);
    s.complete(id, 3).unwrap();
    let j = s.fetch(id).unwrap();
    assert_eq!(j.status, JobStatus::Done);
    assert_eq!(j.attempts, 0);
}

#[test]
fn backoff_doubles_and_saturates_at_cap() {
    assert_eq!(backoff_ms(1, 100, 1000), 100);
    assert_eq!(backoff_ms(2, 100, 1000), 200);
    assert_eq!(backoff_ms(3, 100, 1000), 400);
    assert_eq!(backoff_ms(4, 100, 1000), 800);
    assert_eq!(backoff_ms(5, 100, 1000), 1000);
    assert_eq!(backoff_ms(6, 100, 1000), 1000);
    assert_eq!(backoff_ms(0, 7, 9), 7);
}

#[test]
fn stats_count_jobs_per_status() {
    let mut s = store();
    let a = s.enqueue(String::from("a"), 0);
    let _b = s.enqueue(String::from("b"), 0);
    let c = s.enqueue(String::from("c"), 0);
    s.claim_next(1, 1000, 0).unwrap(); // claims a
    s.complete(a, 1).unwrap();
    s.claim_next(1, 1000, 1).unwrap(); // claims b
    let _ = s.claim_next(1, 1000, 1); // claims c
    let st = s.stats();
    assert_eq!(st.done, 1);
    assert_eq!(st.running, 2);
    assert_eq!(st.pending, 0);
    assert_eq!(st.retrying, 0);
    assert_eq!(st.failed, 0);
    let _ = c;
}

#[test]
fn list_pages_in_insertion_order_with_filter() {
    let mut s = store();
    for k in 0..12u64 {
        s.enqueue(format!("p{}", k), 0);
    }
    let page1 = s.list(None, 1);
    assert_eq!(page1.len(), PAGE_SIZE);
    assert_eq!(page1[0].payload, "p0");
    assert_eq!(page1[9].payload, "p9");
    let page2 = s.list(None, 2);
    assert_eq!(page2.len(), 2);
    assert_eq!(page2[0].payload, "p10");
    let page3 = s.list(None, 3);
    assert!(page3.is_empty());

    let claimed = s.claim_next(1, 1000, 0).unwrap();
    let running = s.list(Some(JobStatus::Running), 1);
    assert_eq!(running.len(), 1);
    assert_eq!(running[0].id, claimed.id);
    let pending = s.list(Some(JobStatus::Pending), 1);
    assert_eq!(pending.len(), 10);
    assert_eq!(pending[0].payload, "p1");
}
