//! The queue's guarantees, stated and proved over the store's
//! transition relations: claims are exclusive while a lease is live,
//! expired leases are reclaimed, retries are bounded, and every job
//! whose outcomes keep being reported ends in a terminal state.

use vstd::prelude::*;

use crate::job::{eligible, terminal, JobStatus, JobView};
use crate::store::{
    best_at, claim_step, claimed_job, complete_view, config_wf, fail_view, unique_ids, StoreConfig,
};

verus! {

/// A `Running` job whose lease has not expired at `now` is not returned
/// by a claim at `now`: exactly one worker holds a non-expired claim on
/// a job at any instant.
pub proof fn lemma_live_lease_not_reclaimed(
    s: Seq<JobView>,
    post: Seq<JobView>,
    j: JobView,
    worker: u64,
    lease: u64,
    now: u64,
    i: int,
)
    requires
        unique_ids(s),
        0 <= i < s.len(),
        s[i].status == JobStatus::Running,
        now <= s[i].lease_expiry,
        claim_step(s, post, j, worker, lease, now),
    ensures
        j.id != s[i].id,
{
    let k = choose|k: int|
        #[trigger] best_at(s, now, k) && j == claimed_job(s[k], worker, now, lease) && post
            == s.update(k, j);
    if j.id == s[i].id {
        assert(s[k].id == s[i].id);
        assert(k == i);
        assert(eligible(s[i], now));
        assert(false);
    }
}

/// A claim changes no job's id, so it preserves id uniqueness.
pub proof fn lemma_claim_preserves_unique_ids(
    s: Seq<JobView>,
    post: Seq<JobView>,
    j: JobView,
    worker: u64,
    lease: u64,
    now: u64,
)
    requires
        unique_ids(s),
        claim_step(s, post, j, worker, lease, now),
    ensures
        unique_ids(post),
        post.len() == s.len(),
        forall|i: int| 0 <= i < s.len() ==> (#[trigger] post[i]).id == s[i].id,
{
    let k = choose|k: int|
        #[trigger] best_at(s, now, k) && j == claimed_job(s[k], worker, now, lease) && post
            == s.update(k, j);
    assert(forall|i: int| 0 <= i < s.len() ==> (#[trigger] post[i]).id == s[i].id);
}

/// At-most-once claim: of two claims in a row, the second coming while
/// the first job's lease is still live, the second never returns the
/// job the first one did. With claims serialized by the store, no two
/// concurrent callers are ever handed the same job.
pub proof fn lemma_claim_at_most_once(
    pre: Seq<JobView>,
    mid: Seq<JobView>,
    post: Seq<JobView>,
    j1: JobView,
    j2: JobView,
    w1: u64,
    w2: u64,
    l1: u64,
    l2: u64,
    now1: u64,
    now2: u64,
)
    requires
        unique_ids(pre),
        claim_step(pre, mid, j1, w1, l1, now1),
        claim_step(mid, post, j2, w2, l2, now2),
        now1 + l1 <= u64::MAX,
        now2 <= now1 + l1,
    ensures
        j2.id != j1.id,
{
    let k = choose|k: int|
        #[trigger] best_at(pre, now1, k) && j1 == claimed_job(pre[k], w1, now1, l1) && mid
            == pre.update(k, j1);
    lemma_claim_preserves_unique_ids(pre, mid, j1, w1, l1, now1);
    assert(mid[k] == j1);
    assert(j1.status == JobStatus::Running);
    assert(j1.lease_expiry == now1 + l1);
    lemma_live_lease_not_reclaimed(mid, post, j2, w2, l2, now2, k);
}

/// Crash reclaim: a job left `Running` past its `lease_expiry` is
/// eligible again; a claim that returns it renews its lease, and until
/// that new lease expires no further claim returns it — once per
/// expiry cycle.
pub proof fn lemma_crash_reclaim(
    s: Seq<JobView>,
    post: Seq<JobView>,
    j: JobView,
    worker: u64,
    lease: u64,
    now: u64,
    i: int,
)
    requires
        unique_ids(s),
        0 <= i < s.len(),
        s[i].status == JobStatus::Running,
        s[i].lease_expiry < now,
        now + lease <= u64::MAX,
        claim_step(s, post, j, worker, lease, now),
        j.id == s[i].id,
    ensures
        eligible(s[i], now),
        post[i] == claimed_job(s[i], worker, now, lease),
        post[i].status == JobStatus::Running,
        post[i].lease_expiry == now + lease,
        forall|post2: Seq<JobView>, j2: JobView, w2: u64, l2: u64, now2: u64|
            now2 <= now + lease && #[trigger] claim_step(post, post2, j2, w2, l2, now2) ==> j2.id
                != j.id,
{
    let k = choose|k: int|
        #[trigger] best_at(s, now, k) && j == claimed_job(s[k], worker, now, lease) && post
            == s.update(k, j);
    assert(s[k].id == s[i].id);
    assert(k == i);
    lemma_claim_preserves_unique_ids(s, post, j, worker, lease, now);
    assert forall|post2: Seq<JobView>, j2: JobView, w2: u64, l2: u64, now2: u64|
        now2 <= now + lease && #[trigger] claim_step(post, post2, j2, w2, l2, now2) implies j2.id
        != j.id by {
        lemma_live_lease_not_reclaimed(post, post2, j2, w2, l2, now2, i);
    }
}

/// A claim removes exactly the claimed job from the eligible set and
/// leaves every other job untouched: with M eligible jobs, M claims in
/// a row succeed, each with a different job, and the claim after that
/// comes back empty.
pub proof fn lemma_claim_shrinks_eligible(
    s: Seq<JobView>,
    post: Seq<JobView>,
    j: JobView,
    worker: u64,
    lease: u64,
    now: u64,
)
    requires
        unique_ids(s),
        now + lease <= u64::MAX,
        claim_step(s, post, j, worker, lease, now),
    ensures
        post.len() == s.len(),
        exists|i: int|
            0 <= i < s.len() && (#[trigger] s[i]).id == j.id && eligible(s[i], now) && post == s.update(
                i,
                j,
            ),
        forall|k: int|
            0 <= k < post.len() && post[k].id != j.id ==> post[k] == s[k],
        forall|k: int|
            0 <= k < post.len() && eligible(#[trigger] post[k], now) ==> post[k].id != j.id && post[k]
                == s[k] && eligible(s[k], now),
{
    let i = choose|i: int|
        #[trigger] best_at(s, now, i) && j == claimed_job(s[i], worker, now, lease) && post
            == s.update(i, j);
    assert(s[i].id == j.id);
    assert forall|k: int|
        0 <= k < post.len() && eligible(#[trigger] post[k], now) implies post[k].id != j.id
        && post[k] == s[k] && eligible(s[k], now) by {
        if k == i {
            assert(post[k] == j);
            assert(j.status == JobStatus::Running && now <= j.lease_expiry);
            assert(!eligible(post[k], now));
        }
    }
}

/// How many jobs are claimable at `now`.
pub open spec fn eligible_count(s: Seq<JobView>, now: u64) -> int
    decreases s.len(),
{
    if s.len() == 0 {
        0
    } else {
        eligible_count(s.drop_last(), now) + (if eligible(s.last(), now) {
            1int
        } else {
            0int
        })
    }
}

/// Replacing one record adjusts the eligible count by the eligibility
/// it takes out and the eligibility it puts in.
proof fn lemma_eligible_count_update(s: Seq<JobView>, i: int, j: JobView, now: u64)
    requires
        0 <= i < s.len(),
    ensures
        eligible_count(s.update(i, j), now) == eligible_count(s, now) - (if eligible(s[i], now) {
            1int
        } else {
            0int
        }) + (if eligible(j, now) {
            1int
        } else {
            0int
        }),
    decreases s.len(),
{
    if i == s.len() - 1 {
        assert(s.update(i, j).drop_last() =~= s.drop_last());
        assert(s.update(i, j).last() == j);
    } else {
        assert(s.update(i, j).drop_last() =~= s.drop_last().update(i, j));
        assert(s.update(i, j).last() == s.last());
        lemma_eligible_count_update(s.drop_last(), i, j, now);
        assert(s.drop_last()[i] == s[i]);
    }
}

/// Each successful claim takes exactly one job out of the eligible
/// set. Together with the store's promise that a claim comes back
/// empty only when nothing is eligible, M eligible jobs answer any
/// N >= M claims with exactly M successes.
pub proof fn lemma_claim_decrements_eligible_count(
    s: Seq<JobView>,
    post: Seq<JobView>,
    j: JobView,
    worker: u64,
    lease: u64,
    now: u64,
)
    requires
        unique_ids(s),
        now + lease <= u64::MAX,
        claim_step(s, post, j, worker, lease, now),
    ensures
        eligible_count(post, now) == eligible_count(s, now) - 1,
{
    let i = choose|i: int|
        #[trigger] best_at(s, now, i) && j == claimed_job(s[i], worker, now, lease) && post
            == s.update(i, j);
    assert(eligible(s[i], now));
    assert(!eligible(j, now));
    lemma_eligible_count_update(s, i, j, now);
}

/// A run of failure reports: each entry is the error detail and the
/// time of one `fail` on the job.
pub open spec fn apply_fails(j: JobView, steps: Seq<(Seq<char>, u64)>, cfg: StoreConfig) -> JobView
    decreases steps.len(),
{
    if steps.len() == 0 {
        j
    } else {
        apply_fails(
            fail_view(j, steps[0].0, steps[0].1, cfg),
            steps.subrange(1, steps.len() as int),
            cfg,
        )
    }
}

/// Bounded retries: once `fail` has been reported `max_attempts` times
/// in all on a job, it is `Failed` with its attempts at the bound, and
/// any further `fail` changes nothing — neither attempts nor `run_at`.
pub proof fn lemma_bounded_retries(j: JobView, steps: Seq<(Seq<char>, u64)>, cfg: StoreConfig)
    requires
        config_wf(cfg),
        !terminal(j.status),
        j.attempts < cfg.max_attempts,
        j.attempts + steps.len() == cfg.max_attempts,
    ensures
        apply_fails(j, steps, cfg).status == JobStatus::Failed,
        apply_fails(j, steps, cfg).attempts == cfg.max_attempts,
        apply_fails(j, steps, cfg).id == j.id,
        forall|e: Seq<char>, t: u64|
            #[trigger] fail_view(apply_fails(j, steps, cfg), e, t, cfg) == apply_fails(
                j,
                steps,
                cfg,
            ),
    decreases steps.len(),
{
    let j1 = fail_view(j, steps[0].0, steps[0].1, cfg);
    let rest = steps.subrange(1, steps.len() as int);
    if steps.len() == 1 {
        assert(j1.status == JobStatus::Failed);
        assert(apply_fails(j1, rest, cfg) == j1);
    } else {
        assert(j1.status == JobStatus::Retrying);
        lemma_bounded_retries(j1, rest, cfg);
    }
}

/// One outcome report on a job: a handler failure with its error and
/// time, or a successful completion with its time.
pub ghost enum JobEvent {
    Failed(Seq<char>, u64),
    Completed(u64),
}

/// The record after one outcome report.
pub open spec fn apply_event(j: JobView, ev: JobEvent, cfg: StoreConfig) -> JobView {
    match ev {
        JobEvent::Failed(e, t) => fail_view(j, e, t, cfg),
        JobEvent::Completed(t) => complete_view(j, t),
    }
}

/// The record after a run of outcome reports.
pub open spec fn apply_events(j: JobView, evs: Seq<JobEvent>, cfg: StoreConfig) -> JobView
    decreases evs.len(),
{
    if evs.len() == 0 {
        j
    } else {
        apply_events(apply_event(j, evs[0], cfg), evs.subrange(1, evs.len() as int), cfg)
    }
}

/// A terminal job never transitions again, whatever is reported on it.
pub proof fn lemma_terminal_stays(j: JobView, evs: Seq<JobEvent>, cfg: StoreConfig)
    requires
        terminal(j.status),
    ensures
        apply_events(j, evs, cfg) == j,
    decreases evs.len(),
{
    if evs.len() > 0 {
        assert(apply_event(j, evs[0], cfg) == j);
        lemma_terminal_stays(j, evs.subrange(1, evs.len() as int), cfg);
    }
}

/// No silent loss: every outcome report on a live job either completes
/// it or counts an attempt, so a job on which outcomes keep being
/// reported — a handler that eventually succeeds, or failures up to the
/// bounded `max_attempts` — is terminal (`Done` or `Failed`) after at
/// most `max_attempts - attempts` reports.
pub proof fn lemma_no_silent_loss(j: JobView, evs: Seq<JobEvent>, cfg: StoreConfig)
    requires
        config_wf(cfg),
        j.attempts <= cfg.max_attempts,
        j.attempts == cfg.max_attempts ==> j.status == JobStatus::Failed,
        j.attempts + evs.len() >= cfg.max_attempts,
    ensures
        terminal(apply_events(j, evs, cfg).status),
    decreases evs.len(),
{
    if terminal(j.status) {
        lemma_terminal_stays(j, evs, cfg);
    } else {
        let j1 = apply_event(j, evs[0], cfg);
        let rest = evs.subrange(1, evs.len() as int);
        match evs[0] {
            JobEvent::Completed(_t) => {
                assert(terminal(j1.status));
                lemma_terminal_stays(j1, rest, cfg);
            },
            JobEvent::Failed(_e, _t) => {
                lemma_no_silent_loss(j1, rest, cfg);
            },
        }
    }
}

} // verus!
