use backend_lifecycle::lifecycle::{launch_plan, terminate, KillRequest, Platform, ProcessState};

#[test]
fn new_state_is_idle() {
    let s = ProcessState::new();
    assert!(s.idle());
    assert_eq!(s.current_handle(), None);
}

#[test]
fn successful_launch_moves_to_running() {
    let mut s = ProcessState::new();
    s.record_launch(Some(1234));
    assert!(!s.idle());
    assert_eq!(s.current_handle(), Some(1234));
}

#[test]
fn failed_launch_stays_idle() {
    let mut s = ProcessState::new();
    s.record_launch(None);
    assert!(s.idle());
    assert_eq!(s.current_handle(), None);
}

#[test]
fn terminate_when_idle_is_a_no_op() {
    let mut s = ProcessState::new();
    let r = terminate(Platform::ProcessGroup, &mut s);
    assert!(r.is_none());
    assert!(s.idle());
    let r = terminate(Platform::IntermediaryShell, &mut s);
    assert!(r.is_none());
    assert!(s.idle());
}

#[test]
fn terminate_when_running_clears_state() {
    let mut s = ProcessState::new();
    s.record_launch(Some(99));
    let r = terminate(Platform::ProcessGroup, &mut s);
    assert!(r.is_some());
    assert!(s.idle());
}

#[test]
fn group_kill_targets_negated_pid() {
    let mut s = ProcessState::new();
    s.record_launch(Some(4242));
    assert!(!s.idle());
    let r = terminate(Platform::ProcessGroup, &mut s);
    match r {
        Some(KillRequest::GroupSignal { target }) => assert_eq!(target, -4242),
        _ => panic!("expected a group signal"),
    }
    assert!(s.idle());
}

#[test]
fn group_kill_negates_the_largest_pid() {
    let mut s = ProcessState::new();
    s.record_launch(Some(u32::MAX));
    let r = terminate(Platform::ProcessGroup, &mut s);
    match r {
        Some(KillRequest::GroupSignal { target }) => assert_eq!(target, -(u32::MAX as i64)),
        _ => panic!("expected a group signal"),
    }
}

#[test]
fn title_kill_uses_the_fixed_filter_not_the_pid() {
    let mut s = ProcessState::new();
    s.record_launch(Some(4242));
    let r = terminate(Platform::IntermediaryShell, &mut s);
    match r {
        Some(KillRequest::ByTitle { title_filter }) => {
            assert_eq!(title_filter, "DataNexus Backend*");
            assert!(!title_filter.contains("4242"));
        }
        _ => panic!("expected a title kill"),
    }
    assert!(s.idle());
}

#[test]
fn failed_launch_then_terminate_issues_no_call() {
    let mut s = ProcessState::new();
    s.record_launch(None);
    assert!(s.idle());
    let r = terminate(Platform::ProcessGroup, &mut s);
    assert!(r.is_none());
    assert!(s.idle());
}

#[test]
fn second_close_event_is_idempotent() {
    let mut s = ProcessState::new();
    s.record_launch(Some(7));
    let first = terminate(Platform::ProcessGroup, &mut s);
    assert!(first.is_some());
    let second = terminate(Platform::ProcessGroup, &mut s);
    assert!(second.is_none());
    assert!(s.idle());
}

#[test]
fn take_consumes_the_handle() {
    let mut s = ProcessState::new();
    s.record_launch(Some(55));
    assert_eq!(s.take(), Some(55));
    assert!(s.idle());
    assert_eq!(s.take(), None);
}

#[test]
fn shell_platform_launches_through_the_intermediary() {
    let plan = launch_plan(Platform::IntermediaryShell);
    assert_eq!(plan.program, "cmd");
    assert_eq!(
        plan.args,
        vec![
            "/c",
            "start",
            "DataNexus Backend",
            "cmd",
            "/k",
            "python -m uvicorn main:app --reload",
        ]
    );
}

#[test]
fn group_platform_launches_the_backend_directly() {
    let plan = launch_plan(Platform::ProcessGroup);
    assert_eq!(plan.program, "python");
    assert_eq!(plan.args, vec!["-m", "uvicorn", "main:app", "--reload"]);
}

#[test]
fn window_title_at_launch_matches_the_kill_filter() {
    let plan = launch_plan(Platform::IntermediaryShell);
    let title = plan.args[2].clone();
    let mut s = ProcessState::new();
    s.record_launch(Some(1));
    match terminate(Platform::IntermediaryShell, &mut s) {
        Some(KillRequest::ByTitle { title_filter }) => {
            assert_eq!(title_filter, format!("{}*", title));
        }
        _ => panic!("expected a title kill"),
    }
}
