use periodic_task::{loop_decision, LoopDirective, TaskState};

#[test]
fn decision_invokes_while_flag_clear() {
    assert_eq!(loop_decision(false), LoopDirective::Invoke);
}

#[test]
fn decision_stops_once_flag_is_seen() {
    assert_eq!(loop_decision(true), LoopDirective::Stop);
}

#[test]
fn fresh_task_state() {
    let s = TaskState::new();
    assert!(!s.cancel_requested);
    assert!(s.running);
    assert_eq!(s.invocations, 0);
    assert!(!s.stale_read_spent);
    assert!(!s.joined);
}

#[test]
fn counting_run_with_the_documented_race() {
    // Three ordinary periods, then cancel; the one stale read the
    // relaxed load permits yields exactly one extra invocation.
    let mut s = TaskState::new();
    assert_eq!(s.observe(false), LoopDirective::Invoke);
    assert_eq!(s.observe(false), LoopDirective::Invoke);
    assert_eq!(s.observe(false), LoopDirective::Invoke);
    s.request_cancel();
    assert_eq!(s.observe(false), LoopDirective::Invoke);
    assert!(s.stale_read_spent);
    assert_eq!(s.observe(true), LoopDirective::Stop);
    assert!(!s.running);
    s.complete_join();
    assert_eq!(s.invocations, 4);
}

#[test]
fn cancel_before_first_period() {
    // Cancelling right after spawn: the loop may simply see the flag on
    // its first check and never invoke the callable at all.
    let mut s = TaskState::new();
    s.request_cancel();
    assert_eq!(s.observe(true), LoopDirective::Stop);
    assert!(!s.running);
    s.complete_join();
    assert!(s.joined);
    assert_eq!(s.invocations, 0);
}

#[test]
fn join_happens_only_after_the_loop_stopped() {
    // The join step of cancel completes only once the background loop
    // has terminated; afterwards the count never moves again.
    let mut s = TaskState::new();
    assert_eq!(s.observe(false), LoopDirective::Invoke);
    s.request_cancel();
    assert_eq!(s.observe(true), LoopDirective::Stop);
    assert!(!s.running);
    let before_join: u64 = s.invocations;
    s.complete_join();
    assert!(s.joined);
    assert!(!s.running);
    assert_eq!(s.invocations, before_join);
}

#[test]
fn wake_forces_the_next_check_to_stop() {
    // Once the flag is stored and its one stale read is spent, the next
    // check reads true and stops at once, however long the period is.
    let mut s = TaskState::new();
    assert_eq!(s.observe(false), LoopDirective::Invoke);
    s.request_cancel();
    assert_eq!(s.observe(false), LoopDirective::Invoke);
    assert!(s.stale_read_spent);
    assert_eq!(s.observe(true), LoopDirective::Stop);
    assert!(!s.running);
    s.complete_join();
    assert_eq!(s.invocations, 2);
}

#[test]
fn zero_period_stress_still_cancels_promptly() {
    // A zero period means a tight loop of invocations; cancellation is
    // still observed within at most one further invocation.
    let mut s = TaskState::new();
    let mut i: u32 = 0;
    while i < 1000 {
        assert_eq!(s.observe(false), LoopDirective::Invoke);
        i += 1;
    }
    s.request_cancel();
    assert_eq!(s.observe(false), LoopDirective::Invoke);
    assert_eq!(s.observe(true), LoopDirective::Stop);
    s.complete_join();
    assert_eq!(s.invocations, 1001);
    assert!(!s.running);
    assert!(s.joined);
}
