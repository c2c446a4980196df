use nohead_rs::dispatcher::{
    Dispatcher, DispatcherAction, DispatcherConfig, DispatcherEvent, WorkerDescriptor,
    WorkerRegistry,
};

fn config() -> DispatcherConfig {
    DispatcherConfig {
        concurrency: 2,
        lease_ms: 30_000,
        poll_interval_ms: 250,
        storage_backoff_ms: 1_000,
        drain_wait_ms: 10_000,
    }
}

#[test]
fn claims_only_below_the_concurrency_bound() {
    let mut d = Dispatcher::new(config());
    assert_eq!(d.step(DispatcherEvent::Tick), DispatcherAction::TryClaim);
    assert_eq!(d.step(DispatcherEvent::Claimed(0)), DispatcherAction::Execute(0));
    assert_eq!(d.step(DispatcherEvent::Tick), DispatcherAction::TryClaim);
    assert_eq!(d.step(DispatcherEvent::Claimed(1)), DispatcherAction::Execute(1));
    // At the bound: the next tick waits instead of claiming.
    assert_eq!(d.step(DispatcherEvent::Tick), DispatcherAction::Wait(250));
    // An outcome frees a slot again.
    assert_eq!(d.step(DispatcherEvent::HandlerSucceeded(0)), DispatcherAction::ReportComplete(0));
    assert_eq!(d.step(DispatcherEvent::Tick), DispatcherAction::TryClaim);
}

#[test]
fn handler_failure_reports_fail_and_loop_survives() {
    let mut d = Dispatcher::new(config());
    d.step(DispatcherEvent::Tick);
    d.step(DispatcherEvent::Claimed(9));
    assert_eq!(d.step(DispatcherEvent::HandlerFailed(9)), DispatcherAction::ReportFail(9));
    assert_eq!(d.step(DispatcherEvent::Tick), DispatcherAction::TryClaim);
}

#[test]
fn storage_failure_backs_off_and_retries() {
    let mut d = Dispatcher::new(config());
    assert_eq!(d.step(DispatcherEvent::StorageFailed), DispatcherAction::Wait(1_000));
    assert_eq!(d.step(DispatcherEvent::Tick), DispatcherAction::TryClaim);
}

#[test]
fn nothing_eligible_waits_the_poll_interval() {
    let mut d = Dispatcher::new(config());
    d.step(DispatcherEvent::Tick);
    assert_eq!(d.step(DispatcherEvent::NothingEligible), DispatcherAction::Wait(250));
}

#[test]
fn cancel_with_idle_dispatcher_exits_at_once() {
    let mut d = Dispatcher::new(config());
    assert_eq!(d.step(DispatcherEvent::CancelRequested), DispatcherAction::Exit);
}

#[test]
fn cancel_waits_for_in_flight_work_then_exits() {
    let mut d = Dispatcher::new(config());
    d.step(DispatcherEvent::Tick);
    d.step(DispatcherEvent::Claimed(3));
    assert_eq!(d.step(DispatcherEvent::CancelRequested), DispatcherAction::Wait(250));
    // No new claims after cancellation.
    assert_eq!(d.step(DispatcherEvent::Tick), DispatcherAction::Wait(250));
    assert_eq!(d.step(DispatcherEvent::HandlerSucceeded(3)), DispatcherAction::ReportComplete(3));
    assert_eq!(d.step(DispatcherEvent::Tick), DispatcherAction::Exit);
}

#[test]
fn drain_bound_forces_exit_even_with_work_in_flight() {
    let mut d = Dispatcher::new(config());
    d.step(DispatcherEvent::Tick);
    d.step(DispatcherEvent::Claimed(3));
    d.step(DispatcherEvent::CancelRequested);
    assert_eq!(d.step(DispatcherEvent::DrainExpired), DispatcherAction::Exit);
}

#[test]
fn worker_registry_tracks_claims() {
    let mut reg = WorkerRegistry::new();
    reg.register_worker(1);
    reg.register_worker(2);
    reg.set_claim(0, Some(17));
    let workers = reg.list();
    assert_eq!(
        workers,
        vec![
            WorkerDescriptor { id: 1, claimed_job: Some(17) },
            WorkerDescriptor { id: 2, claimed_job: None },
        ]
    );
    reg.set_claim(0, None);
    assert_eq!(reg.list()[0].claimed_job, None);
}
