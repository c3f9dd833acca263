//! The worker lifecycle: cooperative cancellation and exactly-once
//! cleanup on teardown.
use pushauth::worker::{Message, Worker, WorkerState};

#[test]
fn cleanup_runs_exactly_once_after_success_outcome() {
    let mut w = Worker::spawn(true);
    assert_eq!(w.state, WorkerState::Running);
    assert_eq!(w.cleanups_run, 0);
    // the flow reached a success outcome; the orchestrator drops the worker
    let do_cleanup = w.teardown();
    assert!(do_cleanup);
    assert_eq!(w.state, WorkerState::Stopped);
    assert_eq!(w.cleanups_run, 1);
}

#[test]
fn cleanup_runs_exactly_once_after_failure_outcome() {
    let mut w = Worker::spawn(true);
    // the flow failed; cancellation is requested before teardown
    w.send(Message::StopSelf);
    assert_eq!(w.state, WorkerState::Cancelling);
    assert_eq!(w.cleanups_run, 0);
    let do_cleanup = w.teardown();
    assert!(do_cleanup);
    assert_eq!(w.cleanups_run, 1);
}

#[test]
fn cleanup_runs_exactly_once_after_timeout_outcome() {
    let mut w = Worker::spawn(true);
    // the timer fired; cancellation may be signalled repeatedly
    w.send(Message::StopSelf);
    w.send(Message::StopSelf);
    assert_eq!(w.cleanups_run, 0);
    let do_cleanup = w.teardown();
    assert!(do_cleanup);
    assert_eq!(w.state, WorkerState::Stopped);
    assert_eq!(w.cleanups_run, 1);
}

#[test]
fn worker_without_cleanup_never_runs_one() {
    let mut w = Worker::spawn(false);
    w.send(Message::StopSelf);
    let do_cleanup = w.teardown();
    assert!(!do_cleanup);
    assert_eq!(w.state, WorkerState::Stopped);
    assert_eq!(w.cleanups_run, 0);
}
