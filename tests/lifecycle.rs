use needjs::lifecycle::{Admission, Lifecycle, Status, WatchStep};

#[test]
fn fresh_coordinator_is_running() {
    let l = Lifecycle::new();
    assert_eq!(l.status(), Status::Running);
    assert!(!l.is_terminated());
    assert_eq!(l.in_flight(), 0);
    assert_eq!(l.waiting(), 0);
}

#[test]
fn stop_with_nothing_pending_terminates_at_once() {
    let mut l = Lifecycle::new();
    l.append();
    l.exec_stop();
    assert_eq!(l.status(), Status::StopRequested);
    assert_eq!(l.watch(), WatchStep::Done);
    assert!(l.is_terminated());
    assert_eq!(l.status(), Status::Stopping);
}

#[test]
fn watcher_waits_for_enqueued_action() {
    let mut l = Lifecycle::new();
    l.append();
    l.append();
    l.exec_stop();
    assert_eq!(l.waiting(), 1);
    assert_eq!(l.watch(), WatchStep::Wait);
    assert!(!l.is_terminated());
}

#[test]
fn last_completion_after_stop_commits_termination() {
    let mut l = Lifecycle::new();
    l.append();
    assert_eq!(l.begin(), Admission::Run);
    assert_eq!(l.in_flight(), 1);
    l.append();
    l.exec_stop();
    assert_eq!(l.watch(), WatchStep::Wait);
    assert!(l.complete());
    assert!(l.is_terminated());
    assert_eq!(l.in_flight(), 0);
    assert_eq!(l.watch(), WatchStep::Done);
}

#[test]
fn completion_without_stop_keeps_running() {
    let mut l = Lifecycle::new();
    l.append();
    assert_eq!(l.begin(), Admission::Run);
    assert!(!l.complete());
    assert_eq!(l.status(), Status::Running);
    assert!(!l.is_terminated());
    assert_eq!(l.waiting(), 0);
}

#[test]
fn action_after_termination_is_dismissed() {
    let mut l = Lifecycle::new();
    l.append();
    l.exec_stop();
    assert_eq!(l.watch(), WatchStep::Done);
    l.append();
    assert_eq!(l.begin(), Admission::Dismiss);
    assert!(l.is_terminated());
    assert_eq!(l.waiting(), 0);
}

#[test]
fn stop_after_termination_sets_stop_requested() {
    let mut l = Lifecycle::new();
    l.append(); // an action
    l.append(); // a stop
    assert_eq!(l.begin(), Admission::Run);
    l.exec_stop();
    assert!(l.complete());
    assert!(l.is_terminated());
    assert_eq!(l.status(), Status::Stopping);
    l.append(); // a second stop
    l.exec_stop();
    assert_eq!(l.status(), Status::StopRequested);
    assert!(l.is_terminated());
    assert_eq!(l.watch(), WatchStep::Done);
    assert_eq!(l.status(), Status::Stopping);
}

#[test]
fn watcher_waits_for_late_action_after_termination() {
    let mut l = Lifecycle::new();
    l.append(); // an action
    l.append(); // the stop
    assert_eq!(l.begin(), Admission::Run);
    l.exec_stop();
    assert!(l.complete());
    assert!(l.is_terminated());
    l.append(); // enqueued after the commit
    assert_eq!(l.watch(), WatchStep::Wait);
    assert_eq!(l.begin(), Admission::Dismiss);
    assert_eq!(l.watch(), WatchStep::Done);
}

// setTimeout(() => console.log("a"), 10); console.log("b"): the timer is
// enqueued during the script, the stop after it; the process must not exit
// before the timer's callback ran.
#[test]
fn deferred_log_keeps_process_alive() {
    let mut l = Lifecycle::new();
    l.append(); // the timer
    l.append(); // the stop, after the script
    assert_eq!(l.begin(), Admission::Run);
    l.exec_stop();
    assert_eq!(l.watch(), WatchStep::Wait);
    assert!(!l.is_terminated());
    assert!(l.complete());
    assert_eq!(l.watch(), WatchStep::Done);
}

// setTimeout(() => setTimeout(() => console.log("inner"), 1), 1): the inner
// timer is enqueued by the outer callback, while a stop is requested; both
// run before the process exits.
#[test]
fn race_at_shutdown_runs_both_timers() {
    let mut l = Lifecycle::new();
    l.append(); // outer timer
    l.append(); // stop
    assert_eq!(l.begin(), Admission::Run);
    l.exec_stop();
    assert_eq!(l.watch(), WatchStep::Wait);
    l.append(); // inner timer, from the outer callback
    assert!(!l.complete());
    assert!(!l.is_terminated());
    assert_eq!(l.watch(), WatchStep::Wait);
    assert_eq!(l.begin(), Admission::Run);
    assert!(l.complete());
    assert!(l.is_terminated());
    assert_eq!(l.watch(), WatchStep::Done);
}

// console.log("hi"): nothing asynchronous, the stop terminates at once.
#[test]
fn hello_world_exits_after_script() {
    let mut l = Lifecycle::new();
    assert!(l.can_append());
    l.append();
    l.exec_stop();
    assert_eq!(l.watch(), WatchStep::Done);
}
