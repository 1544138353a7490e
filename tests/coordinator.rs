use wait_for_file::coordinator::{Coordinator, Phase, Step, POLL_INTERVAL_SECS};

fn watching() -> Coordinator {
    let mut c = Coordinator::new("/tmp/marker".to_string(), "echo main".to_string(), "Unlock:open-vault 120s");
    c.start();
    c
}

#[test]
fn new_coordinator_is_idle_and_active() {
    let c = Coordinator::new("/tmp/marker".to_string(), "echo main".to_string(), "Unlock:open-vault 120s");
    assert_eq!(c.phase(), Phase::Idle);
    assert!(c.is_active());
    assert_eq!(c.presence_file(), "/tmp/marker");
    assert_eq!(c.main_command(), "echo main");
    assert_eq!(c.extra_label(), "Unlock");
    assert_eq!(c.trigger_auxiliary(), "open-vault 120s");
    assert_eq!(POLL_INTERVAL_SECS, 1);
}

#[test]
fn idle_coordinator_does_not_poll() {
    let mut c = Coordinator::new("f".to_string(), "m".to_string(), "x");
    assert_eq!(c.poll(true), Step::Stop);
    assert_eq!(c.phase(), Phase::Idle);
}

#[test]
fn match_after_absent_polls_dispatches_once() {
    for n in 0..5 {
        let mut c = watching();
        for _ in 0..n {
            assert_eq!(c.poll(false), Step::Sleep);
            assert_eq!(c.phase(), Phase::Watching);
        }
        assert_eq!(c.poll(true), Step::Dispatch);
        assert_eq!(c.phase(), Phase::Dispatching);
        assert!(c.main_dispatched(true));
        assert_eq!(c.phase(), Phase::Matched);
        assert_eq!(c.poll(true), Step::Stop);
        assert_eq!(c.poll(false), Step::Stop);
        assert!(!c.main_dispatched(true));
    }
}

#[test]
fn cancel_before_file_exists_never_dispatches() {
    let mut c = watching();
    assert_eq!(c.poll(false), Step::Sleep);
    c.cancel();
    assert_eq!(c.phase(), Phase::Cancelled);
    assert!(!c.is_active());
    assert_eq!(c.poll(true), Step::Stop);
    assert!(!c.main_dispatched(true));
    c.start();
    assert_eq!(c.phase(), Phase::Cancelled);
    assert_eq!(c.poll(true), Step::Stop);
}

#[test]
fn cancel_before_start_prevents_watching() {
    let mut c = Coordinator::new("f".to_string(), "m".to_string(), "x");
    c.cancel();
    c.start();
    assert_eq!(c.phase(), Phase::Cancelled);
    assert_eq!(c.poll(true), Step::Stop);
}

#[test]
fn cancel_after_match_is_a_no_op() {
    let mut c = watching();
    assert_eq!(c.poll(true), Step::Dispatch);
    assert!(c.main_dispatched(true));
    c.cancel();
    c.cancel();
    assert_eq!(c.phase(), Phase::Matched);
    assert!(c.is_active());
    assert_eq!(c.poll(true), Step::Stop);
    assert!(!c.main_dispatched(false));
}

#[test]
fn auxiliary_triggers_are_independent_of_the_watch() {
    let mut c = watching();
    let mut launches = 0;
    for _ in 0..3 {
        assert_eq!(c.trigger_auxiliary(), "open-vault 120s");
        launches += 1;
    }
    assert_eq!(c.phase(), Phase::Watching);
    c.cancel();
    for _ in 0..2 {
        assert_eq!(c.trigger_auxiliary(), "open-vault 120s");
        launches += 1;
    }
    assert_eq!(launches, 5);
    assert_eq!(c.phase(), Phase::Cancelled);
}

#[test]
fn cancel_racing_with_match_cancel_first() {
    let mut c = watching();
    c.cancel();
    assert_eq!(c.poll(true), Step::Stop);
    assert_eq!(c.phase(), Phase::Cancelled);
}

#[test]
fn cancel_racing_with_match_match_first() {
    let mut c = watching();
    assert_eq!(c.poll(true), Step::Dispatch);
    c.cancel();
    assert_eq!(c.phase(), Phase::Dispatching);
    assert!(c.main_dispatched(true));
    assert_eq!(c.phase(), Phase::Matched);
}

#[test]
fn failed_spawn_still_sends_found_signal() {
    let mut c = watching();
    assert_eq!(c.poll(true), Step::Dispatch);
    assert!(c.main_dispatched(false));
    assert_eq!(c.phase(), Phase::Matched);
}

#[test]
fn second_start_is_a_no_op() {
    let mut c = watching();
    assert_eq!(c.poll(false), Step::Sleep);
    c.start();
    assert_eq!(c.phase(), Phase::Watching);
}
