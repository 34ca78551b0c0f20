//! The error taxonomy shared by every operation of the crate, and its
//! rendering into human-readable text.

use vstd::prelude::*;
use vstd::string::*;
use crate::text::{dec_digits, u64_to_string};

verus! {

/// Everything that can go wrong while orchestrating instances, helpers
/// and downloads.
#[derive(Clone, Debug, PartialEq)]
pub enum MaaError {
    /// The named instance does not exist.
    NotFound,
    /// The engine library, or a resource, controller or tasker handle the
    /// operation needs, is missing.
    NotInitialized,
    /// A controller or helper handshake did not succeed; the index names
    /// the failing helper where one is involved.
    ConnectionFailed { agent_index: Option<u64> },
    /// A helper child process could not be spawned.
    ProcessSpawnFailed { agent_index: u64, detail: String },
    /// A file or network operation failed.
    IOFailure { detail: String },
    /// The operation observed a cancellation request.
    Cancelled,
    /// The engine returned something the protocol does not allow.
    ProtocolMismatch { agent_index: Option<u64>, detail: String },
}

impl MaaError {
    /// A descriptive message; errors tied to a helper carry its index.
    pub fn message(&self) -> (r: String)
        ensures
            *self is NotFound ==> r@ == "instance not found"@,
            *self is NotInitialized ==> r@ == "engine, resource or tasker not initialized"@,
            self matches MaaError::ConnectionFailed { agent_index: Some(i) } ==> r@
                == "failed to connect to agent #"@ + dec_digits(i as nat),
            self matches MaaError::ConnectionFailed { agent_index: None } ==> r@
                == "controller connection failed"@,
            self matches MaaError::ProcessSpawnFailed { agent_index, detail } ==> r@
                == "failed to start agent #"@ + dec_digits(agent_index as nat) + " process: "@
                + detail@,
            self matches MaaError::IOFailure { detail } ==> r@ == "io failure: "@ + detail@,
            *self is Cancelled ==> r@ == "download cancelled"@,
            self matches MaaError::ProtocolMismatch { agent_index: Some(i), detail } ==> r@
                == "unexpected engine reply for agent #"@ + dec_digits(i as nat) + ": "@
                + detail@,
            self matches MaaError::ProtocolMismatch { agent_index: None, detail } ==> r@
                == "unexpected engine reply: "@ + detail@,
    {
        match self {
            MaaError::NotFound => String::from_str("instance not found"),
            MaaError::NotInitialized => String::from_str(
                "engine, resource or tasker not initialized",
            ),
            MaaError::ConnectionFailed { agent_index } => {
                match agent_index {
                    Some(i) => {
                        let mut s = String::from_str("failed to connect to agent #");
                        let d = u64_to_string(*i);
                        s.append(d.as_str());
                        s
                    },
                    None => String::from_str("controller connection failed"),
                }
            },
            MaaError::ProcessSpawnFailed { agent_index, detail } => {
                let mut s = String::from_str("failed to start agent #");
                let d = u64_to_string(*agent_index);
                s.append(d.as_str());
                s.append(" process: ");
                s.append(detail.as_str());
                s
            },
            MaaError::IOFailure { detail } => {
                let mut s = String::from_str("io failure: ");
                s.append(detail.as_str());
                s
            },
            MaaError::Cancelled => String::from_str("download cancelled"),
            MaaError::ProtocolMismatch { agent_index, detail } => {
                match agent_index {
                    Some(i) => {
                        let mut s = String::from_str("unexpected engine reply for agent #");
                        let d = u64_to_string(*i);
                        s.append(d.as_str());
                        s.append(": ");
                        s.append(detail.as_str());
                        s
                    },
                    None => {
                        let mut s = String::from_str("unexpected engine reply: ");
                        s.append(detail.as_str());
                        s
                    },
                }
            },
        }
    }
}

} // verus!
