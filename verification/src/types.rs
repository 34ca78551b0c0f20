//! Plain data carried across the crate's interfaces: device and window
//! descriptions, controller variants, per-instance status snapshots, task
//! and agent configuration, and download/update payloads.

use vstd::prelude::*;

verus! {

/// An ADB device found by the engine's toolkit.
#[derive(Clone, Debug, PartialEq)]
pub struct AdbDevice {
    pub name: String,
    pub adb_path: String,
    pub address: String,
    pub screencap_methods: u64,
    pub input_methods: u64,
    pub config: String,
}

/// A desktop window found by the engine's toolkit.
#[derive(Clone, Debug, PartialEq)]
pub struct Win32Window {
    pub handle: u64,
    pub class_name: String,
    pub window_name: String,
}

/// One controller kind per target class, each carrying exactly the
/// configuration that kind needs. Numeric method masks of the ADB variant
/// travel as decimal strings to survive callers that cannot hold a full
/// 64-bit integer.
#[derive(Clone, Debug, PartialEq)]
pub enum ControllerConfig {
    Adb {
        adb_path: String,
        address: String,
        screencap_methods: String,
        input_methods: String,
        config: String,
    },
    Win32 { handle: u64, screencap_method: u64, mouse_method: u64, keyboard_method: u64 },
    Gamepad { handle: u64, gamepad_type: Option<String>, screencap_method: Option<u64> },
    PlayCover { address: String, uuid: Option<String> },
}

/// The controller connection state as reported by the engine.
#[derive(Clone, Debug, PartialEq)]
pub enum ConnectionStatus {
    Disconnected,
    Connecting,
    Connected,
    Failed(String),
}

/// The lifecycle state of one submitted task.
#[derive(Clone, Copy, Debug, PartialEq, Eq, Structural)]
pub enum TaskStatus {
    Pending,
    Running,
    Succeeded,
    Failed,
}

/// A point-in-time status snapshot of one instance.
#[derive(Clone, Debug, PartialEq)]
pub struct InstanceState {
    pub connected: bool,
    pub resource_loaded: bool,
    pub tasker_inited: bool,
    pub is_running: bool,
    pub task_ids: Vec<i64>,
}

/// A snapshot of every instance plus the shared device and window caches.
#[derive(Clone, Debug, PartialEq)]
pub struct AllInstanceStates {
    pub instances: Vec<(String, InstanceState)>,
    pub cached_adb_devices: Vec<AdbDevice>,
    pub cached_win32_windows: Vec<Win32Window>,
}

/// An event forwarded from an engine callback.
#[derive(Clone, Debug, PartialEq)]
pub struct MaaCallbackEvent {
    pub message: String,
    pub details: String,
}

/// How to start and connect one out-of-process helper.
#[derive(Clone, Debug, PartialEq)]
pub struct AgentConfig {
    pub child_exec: String,
    pub child_args: Option<Vec<String>>,
    pub identifier: Option<String>,
    /// Connect timeout in milliseconds; a negative value waits forever.
    pub timeout: Option<i64>,
}

/// One task to submit: an entry name and an opaque pipeline override.
#[derive(Clone, Debug, PartialEq)]
pub struct TaskConfig {
    pub entry: String,
    pub pipeline_override: String,
}

/// The outcome of comparing the loaded engine version with the minimum
/// this crate supports.
#[derive(Clone, Debug, PartialEq)]
pub struct VersionCheckResult {
    pub current: String,
    pub minimum: String,
    pub is_compatible: bool,
}

/// The manifest of an incremental update package.
#[derive(Clone, Debug, PartialEq)]
pub struct ChangesJson {
    pub added: Vec<String>,
    pub deleted: Vec<String>,
    pub modified: Vec<String>,
}

/// One progress report of a download session. `progress_centi` holds
/// hundredths of a percent, zero while the total size is unknown.
#[derive(Clone, Copy, Debug, PartialEq, Eq, Structural)]
pub struct DownloadProgressEvent {
    pub session_id: u64,
    pub downloaded_size: u64,
    pub total_size: u64,
    pub speed: u64,
    pub progress_centi: u64,
}

/// What a finished download reports back.
#[derive(Clone, Debug, PartialEq)]
pub struct DownloadResult {
    pub session_id: u64,
    pub actual_save_path: String,
    pub detected_filename: Option<String>,
}

/// Host platform details used to build a user-agent string.
#[derive(Clone, Debug, PartialEq)]
pub struct SystemInfo {
    pub os: String,
    pub os_version: String,
    pub arch: String,
    pub tauri_version: String,
}

/// One downloadable artifact of a release.
#[derive(Clone, Debug, PartialEq)]
pub struct GitHubAsset {
    pub name: String,
    pub browser_download_url: String,
    pub size: u64,
}

/// A published release with its artifacts.
#[derive(Clone, Debug, PartialEq)]
pub struct GitHubRelease {
    pub tag_name: String,
    pub name: String,
    pub body: Option<String>,
    pub prerelease: bool,
    pub assets: Vec<GitHubAsset>,
}

} // verus!
