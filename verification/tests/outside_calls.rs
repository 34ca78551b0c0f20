use mxu_core::controller::{plan_controller, ControllerBuildRequest};
use mxu_core::errors::MaaError;
use mxu_core::image::encode_cached_image;
use mxu_core::types::{ControllerConfig, Win32Window};
use mxu_core::version::maa_check_version;
use mxu_core::windows::filter_windows;

fn adb_config(screencap: &str, input: &str) -> ControllerConfig {
    ControllerConfig::Adb {
        adb_path: "/usr/bin/adb".to_string(),
        address: "127.0.0.1:5555".to_string(),
        screencap_methods: screencap.to_string(),
        input_methods: input.to_string(),
        config: "{}".to_string(),
    }
}

#[test]
fn plans_adb_controller_with_parsed_masks() {
    let req = plan_controller(&adb_config("18446744073709551615", "7"), "agents".to_string());
    match req.unwrap() {
        ControllerBuildRequest::Adb { adb_path, address, screencap_methods, input_methods, config, agent_path } => {
            assert_eq!(adb_path, "/usr/bin/adb");
            assert_eq!(address, "127.0.0.1:5555");
            assert_eq!(screencap_methods, u64::MAX);
            assert_eq!(input_methods, 7);
            assert_eq!(config, "{}");
            assert_eq!(agent_path, "agents");
        }
        _ => panic!("wrong variant"),
    }
}

#[test]
fn rejects_unparseable_masks() {
    assert!(matches!(
        plan_controller(&adb_config("not-a-number", "7"), String::new()),
        Err(MaaError::ProtocolMismatch { .. })
    ));
    assert!(matches!(
        plan_controller(&adb_config("1", "99999999999999999999999"), String::new()),
        Err(MaaError::ProtocolMismatch { .. })
    ));
}

#[test]
fn plans_other_controller_kinds() {
    let win = ControllerConfig::Win32 {
        handle: 12,
        screencap_method: 1,
        mouse_method: 2,
        keyboard_method: 4,
    };
    assert!(matches!(
        plan_controller(&win, String::new()).unwrap(),
        ControllerBuildRequest::Win32 { handle: 12, screencap_method: 1, mouse_method: 2, keyboard_method: 4 }
    ));

    let pad = ControllerConfig::Gamepad {
        handle: 5,
        gamepad_type: Some("DS4".to_string()),
        screencap_method: None,
    };
    assert!(matches!(
        plan_controller(&pad, String::new()).unwrap(),
        ControllerBuildRequest::Gamepad { handle: 5, dual_shock: true, screencap_method: None }
    ));

    let pad2 = ControllerConfig::Gamepad {
        handle: 5,
        gamepad_type: Some("Xbox".to_string()),
        screencap_method: Some(3),
    };
    assert!(matches!(
        plan_controller(&pad2, String::new()).unwrap(),
        ControllerBuildRequest::Gamepad { dual_shock: false, screencap_method: Some(3), .. }
    ));

    let pc = ControllerConfig::PlayCover { address: "addr".to_string(), uuid: None };
    match plan_controller(&pc, String::new()).unwrap() {
        ControllerBuildRequest::PlayCover { address, uuid } => {
            assert_eq!(address, "addr");
            assert_eq!(uuid, "");
        }
        _ => panic!("wrong variant"),
    }
}

#[test]
fn version_gate_accepts_and_rejects() {
    assert!(matches!(
        maa_check_version(&"unknown".to_string()),
        Err(MaaError::NotInitialized)
    ));
    assert!(matches!(maa_check_version(&String::new()), Err(MaaError::NotInitialized)));

    let ok = maa_check_version(&"v5.5.0-beta.1".to_string()).unwrap();
    assert_eq!(ok.current, "v5.5.0-beta.1");
    assert_eq!(ok.minimum, "v5.5.0-beta.1");
    assert!(ok.is_compatible);

    let newer = maa_check_version(&"5.6.2".to_string()).unwrap();
    assert!(newer.is_compatible);

    let older = maa_check_version(&"5.4.9".to_string()).unwrap();
    assert!(!older.is_compatible);

    // A version string that does not parse merely counts as incompatible.
    let odd = maa_check_version(&"DEBUG_VERSION".to_string()).unwrap();
    assert!(!odd.is_compatible);
}

fn window(class_name: &str, window_name: &str) -> Win32Window {
    Win32Window {
        handle: 1,
        class_name: class_name.to_string(),
        window_name: window_name.to_string(),
    }
}

#[test]
fn filters_windows_by_both_patterns() {
    let ws = vec![
        window("GameClass", "Game Window"),
        window("Other", "Game Window"),
        window("GameClass", "Settings"),
    ];
    let kept = filter_windows(ws, &Some("^Game".to_string()), &Some("Window$".to_string()));
    assert_eq!(kept.len(), 1);
    assert_eq!(kept[0].class_name, "GameClass");
    assert_eq!(kept[0].window_name, "Game Window");
}

#[test]
fn missing_or_invalid_pattern_filters_nothing() {
    let ws = vec![window("A", "x"), window("B", "y")];
    let kept = filter_windows(ws.clone(), &None, &None);
    assert_eq!(kept.len(), 2);

    // An uncompilable pattern is ignored, as a best-effort search.
    let kept = filter_windows(ws, &Some("(".to_string()), &None);
    assert_eq!(kept.len(), 2);
}

#[test]
fn encodes_cached_image_as_data_url() {
    let data = vec![77u8, 97, 110];
    assert_eq!(
        encode_cached_image(&data).unwrap(),
        "data:image/png;base64,TWFu"
    );
    let data = vec![102u8, 111, 111, 98, 97];
    assert_eq!(
        encode_cached_image(&data).unwrap(),
        "data:image/png;base64,Zm9vYmE="
    );
    assert!(matches!(
        encode_cached_image(&Vec::new()),
        Err(MaaError::ProtocolMismatch { .. })
    ));
}

#[test]
fn error_messages_carry_agent_indices() {
    assert_eq!(
        MaaError::ConnectionFailed { agent_index: Some(3) }.message(),
        "failed to connect to agent #3"
    );
    assert_eq!(
        MaaError::ConnectionFailed { agent_index: None }.message(),
        "controller connection failed"
    );
    assert_eq!(
        MaaError::ProcessSpawnFailed { agent_index: 1, detail: "gone".to_string() }.message(),
        "failed to start agent #1 process: gone"
    );
    assert_eq!(MaaError::NotFound.message(), "instance not found");
    assert_eq!(
        MaaError::IOFailure { detail: "disk full".to_string() }.message(),
        "io failure: disk full"
    );
}
