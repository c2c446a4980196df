use nohead_rs::shutdown::{ShutdownCoordinator, TaskOutcome};

#[test]
fn verdict_undecided_until_every_task_reported() {
    let mut c = ShutdownCoordinator::new();
    let dispatcher = c.register(String::from("dispatcher"));
    let sweeper = c.register(String::from("session-sweeper"));
    c.trigger_shutdown();
    assert!(c.verdict().is_none(), "no task reported yet");
    c.record_outcome(dispatcher, TaskOutcome::Cancelled);
    assert!(c.verdict().is_none(), "one task still running");
    c.record_outcome(sweeper, TaskOutcome::Clean);
    match c.verdict() {
        Some(Ok(())) => {}
        _ => panic!("clean and cancelled tasks drain successfully"),
    }
}

#[test]
fn fatal_task_turns_drain_into_error() {
    let mut c = ShutdownCoordinator::new();
    let a = c.register(String::from("dispatcher"));
    let b = c.register(String::from("sweeper"));
    let d = c.register(String::from("mailer"));
    c.trigger_shutdown();
    c.record_outcome(a, TaskOutcome::Clean);
    c.record_outcome(b, TaskOutcome::Fatal);
    c.record_outcome(d, TaskOutcome::Cancelled);
    match c.verdict() {
        Some(Err(e)) => {
            assert_eq!(e.failed_tasks, vec![String::from("sweeper")]);
        }
        _ => panic!("a fatal task must fail the drain"),
    }
}

#[test]
fn all_fatal_tasks_are_named_in_order() {
    let mut c = ShutdownCoordinator::new();
    let a = c.register(String::from("first"));
    let b = c.register(String::from("second"));
    c.trigger_shutdown();
    c.record_outcome(a, TaskOutcome::Fatal);
    c.record_outcome(b, TaskOutcome::Fatal);
    match c.verdict() {
        Some(Err(e)) => {
            assert_eq!(e.failed_tasks, vec![String::from("first"), String::from("second")]);
        }
        _ => panic!("fatal tasks must fail the drain"),
    }
}

#[test]
fn empty_registry_drains_cleanly() {
    let mut c = ShutdownCoordinator::new();
    c.trigger_shutdown();
    match c.verdict() {
        Some(Ok(())) => {}
        _ => panic!("nothing to join"),
    }
    assert_eq!(c.task_count(), 0);
}
