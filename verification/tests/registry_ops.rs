use mxu_core::errors::MaaError;
use mxu_core::ops::{
    cache_adb_devices, cache_win32_windows, commit_agents, commit_controller, commit_resource,
    commit_tasker, connection_status_from, get_handles, maa_destroy_resource,
    maa_get_all_states, maa_get_cached_adb_devices, maa_get_cached_win32_windows,
    maa_get_instance_state, maa_set_resource_dir, maa_stop_agent, plan_resource, plan_tasker,
    set_lib_dir, EngineProbe, TaskerPlan,
};
use mxu_core::registry::{maa_create_instance, maa_destroy_instance, InstanceRuntime, MaaState};
use mxu_core::types::{AdbDevice, ConnectionStatus, Win32Window};

fn id(s: &str) -> String {
    s.to_string()
}

#[test]
fn create_is_idempotent() {
    let mut state = MaaState::new();
    assert!(maa_create_instance(&mut state, id("a")).is_ok());
    assert!(maa_create_instance(&mut state, id("a")).is_ok());
    assert_eq!(state.instances.len(), 1);
    assert!(maa_create_instance(&mut state, id("b")).is_ok());
    assert_eq!(state.instances.len(), 2);
}

#[test]
fn destroy_returns_full_teardown_plan() {
    let mut state = MaaState::new();
    maa_create_instance(&mut state, id("a")).unwrap();
    commit_resource(&mut state, &id("a"), 11).unwrap();
    commit_controller(&mut state, &id("a"), 22).unwrap();
    commit_tasker(&mut state, &id("a"), 33).unwrap();
    commit_agents(&mut state, &id("a"), vec![101, 102], vec![501, 502]).unwrap();

    let plan = maa_destroy_instance(&mut state, &id("a")).unwrap().unwrap();
    // Every spawned child is in the plan, so every one gets reaped.
    assert_eq!(plan.agent_children, vec![501, 502]);
    assert_eq!(plan.agent_clients, vec![101, 102]);
    assert_eq!(plan.tasker, Some(33));
    assert_eq!(plan.controller, Some(22));
    assert_eq!(plan.resource, Some(11));
    assert_eq!(state.instances.len(), 0);

    // Destroying again finds nothing to tear down and still succeeds.
    assert!(matches!(maa_destroy_instance(&mut state, &id("a")), Ok(None)));
}

#[test]
fn stop_agent_drains_once() {
    let mut state = MaaState::new();
    maa_create_instance(&mut state, id("a")).unwrap();
    commit_agents(&mut state, &id("a"), vec![7, 8], vec![70, 80]).unwrap();

    let (clients, children) = maa_stop_agent(&mut state, &id("a")).unwrap();
    assert_eq!(clients, vec![7, 8]);
    assert_eq!(children, vec![70, 80]);

    // A concurrent second call sees empty lists: nothing to do.
    let (clients2, children2) = maa_stop_agent(&mut state, &id("a")).unwrap();
    assert!(clients2.is_empty());
    assert!(children2.is_empty());

    assert!(matches!(maa_stop_agent(&mut state, &id("zzz")), Err(MaaError::NotFound)));
}

#[test]
fn cleanup_drains_every_instance() {
    let mut state = MaaState::new();
    maa_create_instance(&mut state, id("a")).unwrap();
    maa_create_instance(&mut state, id("b")).unwrap();
    commit_agents(&mut state, &id("a"), vec![1], vec![10]).unwrap();
    commit_agents(&mut state, &id("b"), vec![2, 3], vec![20, 30]).unwrap();

    let (clients, children) = state.cleanup_all_agent_children();
    assert_eq!(clients, vec![1, 2, 3]);
    assert_eq!(children, vec![10, 20, 30]);
    for (_, rec) in &state.instances {
        assert!(rec.agent_clients.is_empty());
        assert!(rec.agent_children.is_empty());
    }
}

#[test]
fn tasker_planning_follows_binding_state() {
    let rec = InstanceRuntime::new();
    assert!(matches!(plan_tasker(false, &rec), Err(MaaError::NotInitialized)));
    assert!(matches!(plan_tasker(true, &rec), Err(MaaError::NotInitialized)));

    let mut state = MaaState::new();
    maa_create_instance(&mut state, id("a")).unwrap();
    commit_resource(&mut state, &id("a"), 11).unwrap();
    assert!(matches!(plan_tasker(true, &state.instances[0].1), Err(MaaError::NotInitialized)));

    commit_controller(&mut state, &id("a"), 22).unwrap();
    match plan_tasker(true, &state.instances[0].1) {
        Ok(TaskerPlan::CreateTasker { resource, controller }) => {
            assert_eq!(resource, 11);
            assert_eq!(controller, 22);
        }
        other => panic!("expected CreateTasker, got {:?}", other.is_ok()),
    }

    commit_tasker(&mut state, &id("a"), 33).unwrap();
    assert!(matches!(
        plan_tasker(true, &state.instances[0].1),
        Ok(TaskerPlan::UseExisting { tasker: 33 })
    ));

    // A tasker is created at most once per instance.
    assert!(matches!(
        commit_tasker(&mut state, &id("a"), 44),
        Err(MaaError::ProtocolMismatch { .. })
    ));
}

#[test]
fn controller_commit_drops_stale_tasker() {
    let mut state = MaaState::new();
    maa_create_instance(&mut state, id("a")).unwrap();
    commit_resource(&mut state, &id("a"), 11).unwrap();
    commit_controller(&mut state, &id("a"), 22).unwrap();
    commit_tasker(&mut state, &id("a"), 33).unwrap();

    let (old_controller, old_tasker) = commit_controller(&mut state, &id("a"), 55).unwrap();
    assert_eq!(old_controller, Some(22));
    assert_eq!(old_tasker, Some(33));
    let rec = &state.instances[0].1;
    assert_eq!(rec.controller, Some(55));
    assert_eq!(rec.tasker, None);
}

#[test]
fn destroy_resource_clears_resource_and_tasker() {
    let mut state = MaaState::new();
    maa_create_instance(&mut state, id("a")).unwrap();
    commit_resource(&mut state, &id("a"), 11).unwrap();
    commit_controller(&mut state, &id("a"), 22).unwrap();
    commit_tasker(&mut state, &id("a"), 33).unwrap();

    assert!(matches!(plan_resource(&state, &id("a")), Ok(Some(11))));
    let (res, tasker) = maa_destroy_resource(&mut state, &id("a")).unwrap();
    assert_eq!(res, Some(11));
    assert_eq!(tasker, Some(33));
    assert!(matches!(plan_resource(&state, &id("a")), Ok(None)));
    assert_eq!(state.instances[0].1.controller, Some(22));
}

#[test]
fn handles_and_status_queries() {
    let mut state = MaaState::new();
    assert!(matches!(get_handles(&state, &id("a")), Err(MaaError::NotFound)));
    maa_create_instance(&mut state, id("a")).unwrap();
    assert!(matches!(get_handles(&state, &id("a")), Ok((None, None, None))));
    commit_resource(&mut state, &id("a"), 1).unwrap();
    assert!(matches!(get_handles(&state, &id("a")), Ok((Some(1), None, None))));

    assert!(matches!(connection_status_from(true), ConnectionStatus::Connected));
    assert!(matches!(connection_status_from(false), ConnectionStatus::Disconnected));
}

#[test]
fn instance_state_snapshot_clears_finished_stop() {
    let mut state = MaaState::new();
    maa_create_instance(&mut state, id("a")).unwrap();
    commit_resource(&mut state, &id("a"), 1).unwrap();
    commit_controller(&mut state, &id("a"), 2).unwrap();
    commit_tasker(&mut state, &id("a"), 3).unwrap();
    mxu_core::ops::cache_task_ids(&mut state, &id("a"), vec![41, 42]).unwrap();
    // A stop is requested while tasks are running.
    mxu_core::tasks::maa_stop_task(&mut state, &id("a"), true, 1000).unwrap();
    assert!(state.instances[0].1.stop_in_progress);

    let probe = EngineProbe {
        connected: true,
        resource_loaded: true,
        tasker_inited: true,
        is_running: false,
    };
    let st = maa_get_instance_state(&mut state, &id("a"), probe).unwrap();
    assert!(st.connected && st.resource_loaded && st.tasker_inited);
    assert!(!st.is_running);
    // The stop ran its course: the flag is observed cleared.
    assert!(!state.instances[0].1.stop_in_progress);
    assert_eq!(state.instances[0].1.stop_started_at_ms, None);
    // The genuine stop cleared the cached ids before the snapshot.
    assert!(st.task_ids.is_empty());
}

#[test]
fn all_states_reports_every_instance() {
    let mut state = MaaState::new();
    maa_create_instance(&mut state, id("a")).unwrap();
    maa_create_instance(&mut state, id("b")).unwrap();
    mxu_core::ops::cache_task_ids(&mut state, &id("b"), vec![9]).unwrap();
    let probes = vec![
        EngineProbe { connected: true, resource_loaded: false, tasker_inited: false, is_running: false },
        EngineProbe { connected: false, resource_loaded: true, tasker_inited: true, is_running: true },
    ];
    let all = maa_get_all_states(&mut state, &probes).unwrap();
    assert_eq!(all.instances.len(), 2);
    assert_eq!(all.instances[0].0, "a");
    assert!(all.instances[0].1.connected);
    assert_eq!(all.instances[1].0, "b");
    assert!(all.instances[1].1.is_running);
    assert_eq!(all.instances[1].1.task_ids, vec![9]);
}

#[test]
fn caches_and_dirs_round_trip() {
    let mut state = MaaState::new();
    set_lib_dir(&mut state, id("/opt/engine"));
    assert_eq!(state.lib_dir.as_deref(), Some("/opt/engine"));
    maa_set_resource_dir(&mut state, id("/opt/resource")).unwrap();
    assert_eq!(state.resource_dir.as_deref(), Some("/opt/resource"));

    let device = AdbDevice {
        name: id("emulator"),
        adb_path: id("/usr/bin/adb"),
        address: id("127.0.0.1:5555"),
        screencap_methods: 7,
        input_methods: 3,
        config: id("{}"),
    };
    cache_adb_devices(&mut state, vec![device.clone()]);
    assert_eq!(maa_get_cached_adb_devices(&state), &vec![device]);

    let win = Win32Window { handle: 99, class_name: id("Cls"), window_name: id("Win") };
    cache_win32_windows(&mut state, vec![win.clone()]);
    assert_eq!(maa_get_cached_win32_windows(&state), &vec![win]);
}
