//! The dispatcher: the decision core of the worker loop that claims
//! eligible jobs under a concurrency bound, hands them to the handler,
//! and reports each outcome back to the store.
//!
//! The loop itself — polling the store, sleeping, awaiting the handler
//! — is outside work; it feeds every observation into
//! [`Dispatcher::step`] as a [`DispatcherEvent`] and performs the
//! [`DispatcherAction`] it gets back. All decisions live here and are
//! verified: the claim rate never exceeds the concurrency bound, a
//! handler failure is reported and never ends the loop, a storage error
//! backs off and never ends the loop, and after cancellation no new
//! work is claimed and the loop exits once in-flight work has drained
//! or the configured drain bound has passed.

use vstd::prelude::*;

verus! {

/// Configuration of one dispatcher instance.
#[derive(Clone, Copy, Debug, PartialEq, Eq, Structural)]
pub struct DispatcherConfig {
    /// Number of jobs this dispatcher may have `Running` at once.
    /// Must be at least 1.
    pub concurrency: u32,
    /// Lease duration put on each claim, in milliseconds. Long enough
    /// for a normal handler run, short enough for timely crash
    /// recovery.
    pub lease_ms: u64,
    /// How long to wait when no job is claimable, in milliseconds.
    pub poll_interval_ms: u64,
    /// How long to back off after a storage error, in milliseconds.
    pub storage_backoff_ms: u64,
    /// Hard upper bound on waiting for in-flight handlers after
    /// cancellation, in milliseconds; the loop exits at the latest when
    /// it has passed.
    pub drain_wait_ms: u64,
}

/// Validity of a dispatcher configuration.
pub open spec fn dispatcher_config_wf(cfg: DispatcherConfig) -> bool {
    1 <= cfg.concurrency
}

/// One observation the loop feeds into the dispatcher.
#[derive(Clone, Copy, Debug, PartialEq, Eq, Structural)]
pub enum DispatcherEvent {
    /// The poll timer fired (or the loop came back around).
    Tick,
    /// A claim attempt returned this job.
    Claimed(u64),
    /// A claim attempt found nothing eligible.
    NothingEligible,
    /// The handler for this job succeeded.
    HandlerSucceeded(u64),
    /// The handler for this job failed (or panicked); the loop carries
    /// the captured error alongside.
    HandlerFailed(u64),
    /// A store operation failed.
    StorageFailed,
    /// The shutdown coordinator requested cancellation.
    CancelRequested,
    /// The bounded drain wait after cancellation has passed.
    DrainExpired,
}

/// What the loop must do next.
#[derive(Clone, Copy, Debug, PartialEq, Eq, Structural)]
pub enum DispatcherAction {
    /// Attempt to claim the next eligible job.
    TryClaim,
    /// Invoke the handler for this claimed job.
    Execute(u64),
    /// Report this job completed to the store.
    ReportComplete(u64),
    /// Report this job failed to the store, with the captured error.
    ReportFail(u64),
    /// Sleep this many milliseconds, then deliver the next event.
    Wait(u64),
    /// Leave the loop.
    Exit,
}

/// The dispatcher's state: how many claims are in flight and whether
/// cancellation was requested.
pub struct Dispatcher {
    config: DispatcherConfig,
    in_flight: u32,
    cancelled: bool,
}

/// The model of a dispatcher.
pub ghost struct DispatcherView {
    pub config: DispatcherConfig,
    pub in_flight: u32,
    pub cancelled: bool,
}

/// The full decision table: the state after an event, and the action
/// the loop must take.
pub open spec fn step_spec(s: DispatcherView, ev: DispatcherEvent) -> (
    DispatcherView,
    DispatcherAction,
) {
    match ev {
        DispatcherEvent::Tick => {
            if s.cancelled {
                if s.in_flight == 0 {
                    (s, DispatcherAction::Exit)
                } else {
                    (s, DispatcherAction::Wait(s.config.poll_interval_ms))
                }
            } else if s.in_flight < s.config.concurrency {
                (s, DispatcherAction::TryClaim)
            } else {
                (s, DispatcherAction::Wait(s.config.poll_interval_ms))
            }
        },
        DispatcherEvent::Claimed(id) => (
            DispatcherView { in_flight: (s.in_flight + 1) as u32, ..s },
            DispatcherAction::Execute(id),
        ),
        DispatcherEvent::NothingEligible => (
            s,
            if s.cancelled && s.in_flight == 0 {
                DispatcherAction::Exit
            } else {
                DispatcherAction::Wait(s.config.poll_interval_ms)
            },
        ),
        DispatcherEvent::HandlerSucceeded(id) => (
            DispatcherView { in_flight: (s.in_flight - 1) as u32, ..s },
            DispatcherAction::ReportComplete(id),
        ),
        DispatcherEvent::HandlerFailed(id) => (
            DispatcherView { in_flight: (s.in_flight - 1) as u32, ..s },
            DispatcherAction::ReportFail(id),
        ),
        DispatcherEvent::StorageFailed => (
            s,
            DispatcherAction::Wait(s.config.storage_backoff_ms),
        ),
        DispatcherEvent::CancelRequested => (
            DispatcherView { cancelled: true, ..s },
            if s.in_flight == 0 {
                DispatcherAction::Exit
            } else {
                DispatcherAction::Wait(s.config.poll_interval_ms)
            },
        ),
        DispatcherEvent::DrainExpired => (s, DispatcherAction::Exit),
    }
}

/// Which events the loop may deliver in a given state: a claim is only
/// reported after a claim was attempted below the bound, an outcome
/// only while work is in flight, and the drain timeout only after
/// cancellation.
pub open spec fn event_allowed(s: DispatcherView, ev: DispatcherEvent) -> bool {
    match ev {
        DispatcherEvent::Claimed(_) => !s.cancelled && s.in_flight < s.config.concurrency,
        DispatcherEvent::HandlerSucceeded(_) => s.in_flight >= 1,
        DispatcherEvent::HandlerFailed(_) => s.in_flight >= 1,
        DispatcherEvent::DrainExpired => s.cancelled,
        _ => true,
    }
}

impl Dispatcher {
    /// The model of this dispatcher.
    pub closed spec fn view(&self) -> DispatcherView {
        DispatcherView {
            config: self.config,
            in_flight: self.in_flight,
            cancelled: self.cancelled,
        }
    }

    /// The concurrency bound is respected.
    pub open spec fn wf(&self) -> bool {
        &&& dispatcher_config_wf(self.view().config)
        &&& self.view().in_flight <= self.view().config.concurrency
    }

    /// A fresh dispatcher: nothing in flight, not cancelled.
    pub fn new(config: DispatcherConfig) -> (r: Dispatcher)
        requires
            1 <= config.concurrency,
        ensures
            r.wf(),
            r.view() == (DispatcherView { config, in_flight: 0, cancelled: false }),
    {
        Dispatcher { config, in_flight: 0, cancelled: false }
    }

    /// The lease to put on claims, from the configuration.
    pub fn lease_ms(&self) -> (r: u64)
        ensures
            r == self.view().config.lease_ms,
    {
        self.config.lease_ms
    }

    /// The configuration this dispatcher runs under.
    pub fn settings(&self) -> (r: DispatcherConfig)
        ensures
            r == self.view().config,
    {
        self.config
    }

    /// How many claims are currently in flight.
    pub fn in_flight(&self) -> (r: u32)
        ensures
            r == self.view().in_flight,
    {
        self.in_flight
    }

    /// Whether cancellation was requested.
    pub fn is_cancelled(&self) -> (r: bool)
        ensures
            r == self.view().cancelled,
    {
        self.cancelled
    }

    /// Feeds one observation in and returns the action the loop must
    /// take, exactly as [`step_spec`] decides it.
    pub fn step(&mut self, ev: DispatcherEvent) -> (r: DispatcherAction)
        requires
            old(self).wf(),
            event_allowed(old(self).view(), ev),
        ensures
            final(self).wf(),
            (final(self).view(), r) == step_spec(old(self).view(), ev),
    {
        match ev {
            DispatcherEvent::Tick => {
                if self.cancelled {
                    if self.in_flight == 0 {
                        DispatcherAction::Exit
                    } else {
                        DispatcherAction::Wait(self.config.poll_interval_ms)
                    }
                } else if self.in_flight < self.config.concurrency {
                    DispatcherAction::TryClaim
                } else {
                    DispatcherAction::Wait(self.config.poll_interval_ms)
                }
            },
            DispatcherEvent::Claimed(id) => {
                self.in_flight = self.in_flight + 1;
                DispatcherAction::Execute(id)
            },
            DispatcherEvent::NothingEligible => {
                if self.cancelled && self.in_flight == 0 {
                    DispatcherAction::Exit
                } else {
                    DispatcherAction::Wait(self.config.poll_interval_ms)
                }
            },
            DispatcherEvent::HandlerSucceeded(id) => {
                self.in_flight = self.in_flight - 1;
                DispatcherAction::ReportComplete(id)
            },
            DispatcherEvent::HandlerFailed(id) => {
                self.in_flight = self.in_flight - 1;
                DispatcherAction::ReportFail(id)
            },
            DispatcherEvent::StorageFailed => DispatcherAction::Wait(self.config.storage_backoff_ms),
            DispatcherEvent::CancelRequested => {
                self.cancelled = true;
                if self.in_flight == 0 {
                    DispatcherAction::Exit
                } else {
                    DispatcherAction::Wait(self.config.poll_interval_ms)
                }
            },
            DispatcherEvent::DrainExpired => DispatcherAction::Exit,
        }
    }
}

/// Once cancellation was requested, the dispatcher never claims new
/// work again, whatever else is observed.
pub proof fn lemma_no_claim_after_cancel(s: DispatcherView, ev: DispatcherEvent)
    requires
        s.cancelled,
    ensures
        step_spec(s, ev).0.cancelled,
        step_spec(s, ev).1 != DispatcherAction::TryClaim,
{
}

/// A handler failure or a storage error never ends the loop: the job's
/// failure is reported to the store, the storage error backs off and
/// retries; only cancellation (or the drain bound after it) exits.
pub proof fn lemma_failures_do_not_kill_dispatcher(s: DispatcherView, ev: DispatcherEvent)
    requires
        event_allowed(s, ev),
        ev is HandlerFailed || ev is StorageFailed,
    ensures
        step_spec(s, ev).1 != DispatcherAction::Exit,
        ev matches DispatcherEvent::HandlerFailed(id) ==> step_spec(s, ev).1
            == DispatcherAction::ReportFail(id),
{
}

/// A descriptor of one active worker: its id and the job it currently
/// holds a claim on, if any. Informational only.
#[derive(Clone, Copy, Debug, PartialEq, Eq, Structural)]
pub struct WorkerDescriptor {
    pub id: u64,
    pub claimed_job: Option<u64>,
}

/// The registry of active workers behind the admin surface.
pub struct WorkerRegistry {
    workers: Vec<WorkerDescriptor>,
}

impl WorkerRegistry {
    /// The registered workers, in registration order.
    pub closed spec fn workers(&self) -> Seq<WorkerDescriptor> {
        self.workers@
    }

    /// An empty registry.
    pub fn new() -> (r: WorkerRegistry)
        ensures
            r.workers() == Seq::<WorkerDescriptor>::empty(),
    {
        let r = WorkerRegistry { workers: Vec::new() };
        proof {
            assert(r.workers() =~= Seq::<WorkerDescriptor>::empty());
        }
        r
    }

    /// Adds a worker with no current claim.
    pub fn register_worker(&mut self, id: u64)
        ensures
            final(self).workers() == old(self).workers().push(
                WorkerDescriptor { id, claimed_job: None },
            ),
    {
        self.workers.push(WorkerDescriptor { id, claimed_job: None });
    }

    /// Records which job the worker at `index` currently holds.
    pub fn set_claim(&mut self, index: usize, claimed_job: Option<u64>)
        requires
            index < old(self).workers().len(),
        ensures
            final(self).workers() == old(self).workers().update(
                index as int,
                WorkerDescriptor { claimed_job, ..old(self).workers()[index as int] },
            ),
    {
        let w = WorkerDescriptor { id: self.workers[index].id, claimed_job };
        let _ = self.workers.remove(index);
        self.workers.insert(index, w);
        proof {
            assert(self.workers() =~= old(self).workers().update(index as int, w));
        }
    }

    /// A copy of the worker descriptors.
    pub fn list(&self) -> (r: Vec<WorkerDescriptor>)
        ensures
            r@ == self.workers(),
    {
        let n = self.workers.len();
        let mut out: Vec<WorkerDescriptor> = Vec::new();
        let mut idx: usize = 0;
        while idx < n
            invariant
                n == self.workers.len(),
                0 <= idx <= n,
                out@ == self.workers().subrange(0, idx as int),
            decreases n - idx,
        {
            out.push(self.workers[idx]);
            proof {
                assert(out@ =~= self.workers().subrange(0, idx + 1));
            }
            idx = idx + 1;
        }
        proof {
            assert(self.workers().subrange(0, n as int) =~= self.workers());
        }
        out
    }
}

} // verus!
