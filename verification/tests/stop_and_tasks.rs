use mxu_core::errors::MaaError;
use mxu_core::ops::{commit_controller, commit_resource, commit_tasker};
use mxu_core::registry::{maa_create_instance, MaaState};
use mxu_core::tasks::{
    check_tasker_inited, collect_task_ids, maa_stop_task, task_status_of, MAA_STATUS_PENDING,
    MAA_STATUS_RUNNING, MAA_STATUS_SUCCEEDED,
};
use mxu_core::types::TaskStatus;

fn ready_state() -> MaaState {
    let mut state = MaaState::new();
    maa_create_instance(&mut state, "a".to_string()).unwrap();
    commit_resource(&mut state, &"a".to_string(), 1).unwrap();
    commit_controller(&mut state, &"a".to_string(), 2).unwrap();
    commit_tasker(&mut state, &"a".to_string(), 3).unwrap();
    state
}

#[test]
fn maps_engine_status_codes() {
    assert_eq!(task_status_of(MAA_STATUS_PENDING), TaskStatus::Pending);
    assert_eq!(task_status_of(MAA_STATUS_RUNNING), TaskStatus::Running);
    assert_eq!(task_status_of(MAA_STATUS_SUCCEEDED), TaskStatus::Succeeded);
    assert_eq!(task_status_of(4000), TaskStatus::Failed);
    assert_eq!(task_status_of(0), TaskStatus::Failed);
    assert_eq!(task_status_of(-5), TaskStatus::Failed);
}

#[test]
fn keeps_only_accepted_posts() {
    assert_eq!(collect_task_ids(&vec![5, 0, 7]), vec![5, 7]);
    assert_eq!(collect_task_ids(&vec![0, 0]), Vec::<i64>::new());
    assert_eq!(collect_task_ids(&vec![]), Vec::<i64>::new());
    assert_eq!(collect_task_ids(&vec![-3, 1]), vec![-3, 1]);
}

#[test]
fn tasker_inited_gate() {
    assert!(check_tasker_inited(true).is_ok());
    assert!(matches!(check_tasker_inited(false), Err(MaaError::NotInitialized)));
}

#[test]
fn stop_twice_within_window_issues_one_command() {
    let mut state = ready_state();
    mxu_core::ops::cache_task_ids(&mut state, &"a".to_string(), vec![7, 8]).unwrap();

    // First stop while running: one engine command on tasker 3.
    let first = maa_stop_task(&mut state, &"a".to_string(), true, 10_000).unwrap();
    assert_eq!(first, Some(3));
    assert!(state.instances[0].1.task_ids.is_empty());

    // 400 ms later, still running: suppressed.
    let second = maa_stop_task(&mut state, &"a".to_string(), true, 10_400).unwrap();
    assert_eq!(second, None);

    // Exactly one underlying stop command was issued in the window.
    // After the window has elapsed, the stop is re-issued.
    let third = maa_stop_task(&mut state, &"a".to_string(), true, 10_500).unwrap();
    assert_eq!(third, Some(3));
}

#[test]
fn stop_with_nothing_running_clears_flag() {
    let mut state = ready_state();
    // Request a stop while tasks run; the flag goes up.
    maa_stop_task(&mut state, &"a".to_string(), true, 1_000).unwrap();
    assert!(state.instances[0].1.stop_in_progress);

    // Nothing runs any more: immediate success, no command, flag cleared.
    let r = maa_stop_task(&mut state, &"a".to_string(), false, 1_050).unwrap();
    assert_eq!(r, None);
    assert!(!state.instances[0].1.stop_in_progress);
    assert_eq!(state.instances[0].1.stop_started_at_ms, None);
}

#[test]
fn stop_needs_instance_and_tasker() {
    let mut state = MaaState::new();
    assert!(matches!(
        maa_stop_task(&mut state, &"a".to_string(), false, 0),
        Err(MaaError::NotFound)
    ));
    maa_create_instance(&mut state, "a".to_string()).unwrap();
    assert!(matches!(
        maa_stop_task(&mut state, &"a".to_string(), false, 0),
        Err(MaaError::NotInitialized)
    ));
}
