//! Orchestration core for a native automation engine and its helper
//! processes, together with a streaming download session manager.
//!
//! The engine itself (an opaque capability SDK loaded at runtime) and all
//! file, process and network I/O live outside this crate; callers drive the
//! state machines defined here and perform the actions they request.

use vstd::prelude::*;

pub mod controller;
pub mod download;
pub mod errors;
pub mod image;
pub mod ops;
pub mod orchestrator;
pub mod paths;
pub mod tasks;
pub mod registry;
pub mod text;
pub mod version;
pub mod windows;
pub mod types;

verus! {

/// Sentinel returned by the engine for a task post that was rejected.
pub const INVALID_TASK_ID: i64 = 0;

/// Buffered download bytes are flushed to disk once this many are pending.
pub const FLUSH_THRESHOLD: u64 = 262144;

/// Minimum wall-clock spacing of download progress events, in milliseconds.
pub const PROGRESS_INTERVAL_MS: u64 = 100;

/// A repeated stop request within this many milliseconds is suppressed.
pub const STOP_THROTTLE_MS: u64 = 500;

} // verus!
