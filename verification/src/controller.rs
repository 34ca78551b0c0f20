//! Controller construction planning: the closed set of controller kinds
//! is dispatched once on its tag, numeric masks arriving as decimal
//! strings are parsed and validated, and the caller receives a plain
//! build request to hand to the engine.

use vstd::prelude::*;
use vstd::string::*;
use crate::errors::MaaError;
use crate::text::{parse_u64, parses_u64, parsed_u64, str_eq};
use crate::types::ControllerConfig;

verus! {

/// A validated request to build one controller, plain values only.
#[derive(Debug)]
pub enum ControllerBuildRequest {
    Adb {
        adb_path: String,
        address: String,
        screencap_methods: u64,
        input_methods: u64,
        config: String,
        agent_path: String,
    },
    Win32 { handle: u64, screencap_method: u64, mouse_method: u64, keyboard_method: u64 },
    /// `dual_shock` selects the DualShock4 profile; otherwise the
    /// Xbox360 profile applies. A missing screencap method falls back to
    /// the engine's desktop-duplication default.
    Gamepad { handle: u64, dual_shock: bool, screencap_method: Option<u64> },
    PlayCover { address: String, uuid: String },
}

/// Turns a controller configuration into a build request. The ADB
/// variant's method masks must parse as decimal 64-bit numbers; a mask
/// that does not parse is rejected before anything reaches the engine.
pub fn plan_controller(config: &ControllerConfig, agent_path: String) -> (r: Result<
    ControllerBuildRequest,
    MaaError,
>)
    ensures
        config matches ControllerConfig::Adb { screencap_methods, input_methods, .. } ==> {
            &&& !parses_u64(screencap_methods@) ==> (r matches Err(e) && e is ProtocolMismatch)
            &&& parses_u64(screencap_methods@) && !parses_u64(input_methods@) ==> (r matches Err(
                e,
            ) && e is ProtocolMismatch)
            &&& parses_u64(screencap_methods@) && parses_u64(input_methods@) ==> (r matches Ok(
                ControllerBuildRequest::Adb {
                    adb_path: p,
                    address: a,
                    screencap_methods: s,
                    input_methods: i,
                    config: c,
                    agent_path: g,
                },
            ) && {
                &&& (config matches ControllerConfig::Adb { adb_path, address, config: cfg, .. }
                    && p@ == adb_path@ && a@ == address@ && c@ == cfg@)
                &&& s == parsed_u64(screencap_methods@)
                &&& i == parsed_u64(input_methods@)
                &&& g == agent_path
            })
        },
        config matches ControllerConfig::Win32 {
            handle,
            screencap_method,
            mouse_method,
            keyboard_method,
        } ==> (r matches Ok(
            ControllerBuildRequest::Win32 {
                handle: h,
                screencap_method: s,
                mouse_method: m,
                keyboard_method: k,
            },
        ) && h == handle && s == screencap_method && m == mouse_method && k == keyboard_method),
        config matches ControllerConfig::Gamepad { handle, gamepad_type, screencap_method } ==> (r
            matches Ok(
            ControllerBuildRequest::Gamepad { handle: h, dual_shock, screencap_method: s },
        ) && h == handle && s == screencap_method && dual_shock == (match gamepad_type {
            Some(t) => t@ == "DualShock4"@ || t@ == "DS4"@,
            None => false,
        })),
        config matches ControllerConfig::PlayCover { address, uuid } ==> (r matches Ok(
            ControllerBuildRequest::PlayCover { address: a, uuid: u },
        ) && a@ == address@ && u@ == (match uuid {
            Some(s) => s@,
            None => Seq::<char>::empty(),
        })),
{
    match config {
        ControllerConfig::Adb { adb_path, address, screencap_methods, input_methods, config } => {
            let screencap = match parse_u64(screencap_methods.as_str()) {
                Some(v) => v,
                None => {
                    return Err(
                        MaaError::ProtocolMismatch {
                            agent_index: None,
                            detail: String::from_str("invalid screencap_methods"),
                        },
                    );
                },
            };
            let input = match parse_u64(input_methods.as_str()) {
                Some(v) => v,
                None => {
                    return Err(
                        MaaError::ProtocolMismatch {
                            agent_index: None,
                            detail: String::from_str("invalid input_methods"),
                        },
                    );
                },
            };
            Ok(
                ControllerBuildRequest::Adb {
                    adb_path: adb_path.clone(),
                    address: address.clone(),
                    screencap_methods: screencap,
                    input_methods: input,
                    config: config.clone(),
                    agent_path,
                },
            )
        },
        ControllerConfig::Win32 { handle, screencap_method, mouse_method, keyboard_method } => {
            Ok(
                ControllerBuildRequest::Win32 {
                    handle: *handle,
                    screencap_method: *screencap_method,
                    mouse_method: *mouse_method,
                    keyboard_method: *keyboard_method,
                },
            )
        },
        ControllerConfig::Gamepad { handle, gamepad_type, screencap_method } => {
            let dual_shock = match gamepad_type {
                Some(t) => str_eq(t.as_str(), "DualShock4") || str_eq(t.as_str(), "DS4"),
                None => false,
            };
            Ok(
                ControllerBuildRequest::Gamepad {
                    handle: *handle,
                    dual_shock,
                    screencap_method: *screencap_method,
                },
            )
        },
        ControllerConfig::PlayCover { address, uuid } => {
            let u = match uuid {
                Some(s) => s.clone(),
                None => String::new(),
            };
            Ok(ControllerBuildRequest::PlayCover { address: address.clone(), uuid: u })
        },
    }
}

} // verus!
