//! The multi-agent orchestrator: helpers are started strictly one after
//! another through a small protocol — create the client, fetch its
//! socket identifier, spawn the child with that identifier appended,
//! run the handshake, register the event sinks. Nothing touches the
//! instance record until every configured helper succeeded; any failure
//! hands back every resource started so far, so the caller can unwind
//! them before reporting one index-tagged error.

use vstd::prelude::*;
use crate::errors::MaaError;
use crate::paths::{join_path, joined_path, normalize_path, normalized_path};
use crate::types::AgentConfig;

verus! {

/// Where the orchestration stands inside the current helper's protocol.
#[derive(Clone, Copy, Debug, PartialEq)]
pub enum StartPhase {
    /// Waiting for the engine to create the helper client.
    Creating,
    /// Waiting for the client's socket identifier.
    Identifying { client: u64 },
    /// Waiting for the child process to spawn.
    Spawning { client: u64 },
    /// Waiting for the blocking handshake, run off the orchestrating
    /// thread.
    Connecting { client: u64, pid: u64 },
    /// Waiting for the three event sinks to be registered.
    Registering { client: u64, pid: u64 },
    /// Every helper succeeded and was handed over for commitment.
    Committed,
    /// A step failed; everything started was handed over for rollback.
    Failed,
}

/// What the driver reports back after performing an action.
#[derive(Debug)]
pub enum StartEvent {
    ClientCreated { client: u64 },
    ClientCreateFailed,
    GotSocketId { socket_id: String },
    SocketIdFailed,
    Spawned { pid: u64 },
    SpawnFailed { detail: String },
    Connected,
    ConnectFailed,
    SinksRegistered,
}

/// What the driver must do next.
#[derive(Debug)]
pub enum StartAction {
    /// Create a helper client; take the compatibility path when asked
    /// and available, else the standard path (recording a warning).
    CreateClient { compat_mode: bool },
    /// Bind the instance's resource to the client, then request its
    /// socket identifier.
    PrepareClient { client: u64, resource: u64 },
    /// Spawn the helper executable with these arguments in this working
    /// directory, capturing both output pipes; each pipe gets a reader
    /// that logs and forwards lines for the process's lifetime.
    SpawnChild { exec_path: String, args: Vec<String>, cwd: String },
    /// Apply the configured timeout to the client, then run the blocking
    /// handshake on a dedicated worker.
    Connect { client: u64, timeout_ms: i64 },
    /// Register the client's resource, controller and tasker sinks.
    RegisterSinks { client: u64, resource: u64, controller: u64, tasker: u64 },
    /// Undo everything: destroy the partially set-up client, kill and
    /// wait on the just-spawned child, then disconnect and destroy every
    /// previously started client and kill and wait on every previously
    /// started child, and surface the error.
    Rollback {
        failed_client: Option<u64>,
        failed_pid: Option<u64>,
        clients: Vec<u64>,
        pids: Vec<u64>,
        error: MaaError,
    },
    /// Every helper is up: append these clients and children to the
    /// instance record as one unit.
    Commit { clients: Vec<u64>, pids: Vec<u64> },
}

/// One orchestration run over an ordered helper configuration list.
pub struct AgentOrchestration {
    pub configs: Vec<AgentConfig>,
    pub cwd: String,
    pub compat_mode: bool,
    pub resource: u64,
    pub controller: u64,
    pub tasker: u64,
    /// Helpers fully started so far; equals the length of both lists.
    pub idx: usize,
    pub started_clients: Vec<u64>,
    pub started_pids: Vec<u64>,
    pub phase: StartPhase,
}

impl AgentOrchestration {
    /// The machine's invariant: the started lists grow in lockstep, one
    /// entry per fully started helper, and are drained exactly when the
    /// run ends.
    pub open spec fn wf(self) -> bool {
        match self.phase {
            StartPhase::Committed | StartPhase::Failed => {
                &&& self.started_clients@.len() == 0
                &&& self.started_pids@.len() == 0
            },
            _ => {
                &&& self.started_clients@.len() == self.started_pids@.len()
                &&& self.started_clients@.len() == self.idx
                &&& self.idx < self.configs@.len()
            },
        }
    }

    /// Whether an event answers the action the machine last asked for.
    pub open spec fn accepts(self, ev: StartEvent) -> bool {
        match (self.phase, ev) {
            (StartPhase::Creating, StartEvent::ClientCreated { .. }) => true,
            (StartPhase::Creating, StartEvent::ClientCreateFailed) => true,
            (StartPhase::Identifying { .. }, StartEvent::GotSocketId { .. }) => true,
            (StartPhase::Identifying { .. }, StartEvent::SocketIdFailed) => true,
            (StartPhase::Spawning { .. }, StartEvent::Spawned { .. }) => true,
            (StartPhase::Spawning { .. }, StartEvent::SpawnFailed { .. }) => true,
            (StartPhase::Connecting { .. }, StartEvent::Connected) => true,
            (StartPhase::Connecting { .. }, StartEvent::ConnectFailed) => true,
            (StartPhase::Registering { .. }, StartEvent::SinksRegistered) => true,
            _ => false,
        }
    }

    /// Begins a run. An empty configuration list commits immediately
    /// with nothing started; otherwise the driver is asked to create the
    /// first helper's client.
    pub fn begin(
        configs: Vec<AgentConfig>,
        cwd: String,
        compat_mode: bool,
        resource: u64,
        controller: u64,
        tasker: u64,
    ) -> (r: (AgentOrchestration, StartAction))
        ensures
            r.0.wf(),
            r.0.configs == configs,
            r.0.cwd == cwd,
            r.0.compat_mode == compat_mode,
            r.0.resource == resource,
            r.0.controller == controller,
            r.0.tasker == tasker,
            r.0.idx == 0,
            configs@.len() == 0 ==> {
                &&& r.0.phase is Committed
                &&& r.1 matches StartAction::Commit { clients, pids } && clients@.len() == 0
                    && pids@.len() == 0
            },
            configs@.len() > 0 ==> {
                &&& r.0.phase is Creating
                &&& r.1 matches StartAction::CreateClient { compat_mode: c } && c == compat_mode
            },
    {
        let empty = configs.len() == 0;
        let m = AgentOrchestration {
            configs,
            cwd,
            compat_mode,
            resource,
            controller,
            tasker,
            idx: 0,
            started_clients: Vec::new(),
            started_pids: Vec::new(),
            phase: if empty {
                StartPhase::Committed
            } else {
                StartPhase::Creating
            },
        };
        let action = if empty {
            StartAction::Commit { clients: Vec::new(), pids: Vec::new() }
        } else {
            StartAction::CreateClient { compat_mode: m.compat_mode }
        };
        (m, action)
    }

    /// Feeds the driver's report into the machine and returns the next
    /// action.
    ///
    /// Rollback completeness: whichever step of helper `i` fails, the
    /// returned rollback carries exactly the clients and children of the
    /// helpers with index below `i` — all of them, in start order — plus
    /// whatever partial resources helper `i` itself had, and an error
    /// tagged with `i`. The machine never touches the instance record,
    /// so an instance sees either all configured helpers (one commit) or
    /// none.
    pub fn step(&mut self, ev: StartEvent) -> (r: StartAction)
        requires
            old(self).wf(),
            old(self).accepts(ev),
        ensures
            final(self).wf(),
            final(self).configs == old(self).configs,
            final(self).cwd == old(self).cwd,
            final(self).compat_mode == old(self).compat_mode,
            final(self).resource == old(self).resource,
            final(self).controller == old(self).controller,
            final(self).tasker == old(self).tasker,
            ev matches StartEvent::ClientCreated { client } ==> {
                &&& final(self).phase matches StartPhase::Identifying { client: c } && c == client
                &&& final(self).idx == old(self).idx
                &&& final(self).started_clients@ == old(self).started_clients@
                &&& final(self).started_pids@ == old(self).started_pids@
                &&& r matches StartAction::PrepareClient { client: c2, resource } && c2 == client
                    && resource == old(self).resource
            },
            ev matches StartEvent::GotSocketId { socket_id } ==> {
                let cfg = old(self).configs@[old(self).idx as int];
                let base = match cfg.child_args {
                    Some(a) => a@,
                    None => Seq::<String>::empty(),
                };
                &&& old(self).phase matches StartPhase::Identifying { client } && (final(self).phase matches StartPhase::Spawning { client: c2 } && c2 == client)
                &&& final(self).idx == old(self).idx
                &&& final(self).started_clients@ == old(self).started_clients@
                &&& final(self).started_pids@ == old(self).started_pids@
                &&& r matches StartAction::SpawnChild { exec_path, args, cwd } && {
                    &&& exec_path@ == normalized_path(
                        joined_path(old(self).cwd@, cfg.child_exec@),
                    )
                    &&& cwd@ == old(self).cwd@
                    &&& args@.len() == base.len() + 1
                    &&& forall|i: int| 0 <= i < base.len() ==> args@[i]@ == #[trigger] base[i]@
                    &&& args@.last()@ == socket_id@
                }
            },
            ev matches StartEvent::Spawned { pid } ==> {
                let cfg = old(self).configs@[old(self).idx as int];
                &&& old(self).phase matches StartPhase::Spawning { client } && (final(self).phase matches StartPhase::Connecting { client: c2, pid: p2 } && c2 == client
                    && p2 == pid)
                &&& final(self).idx == old(self).idx
                &&& final(self).started_clients@ == old(self).started_clients@
                &&& final(self).started_pids@ == old(self).started_pids@
                &&& r matches StartAction::Connect { client: c3, timeout_ms } && (old(self).phase matches StartPhase::Spawning { client: c4 } && c3 == c4) && timeout_ms
                    == (match cfg.timeout {
                    Some(t) => t,
                    None => -1i64,
                })
            },
            ev is Connected ==> {
                &&& old(self).phase matches StartPhase::Connecting { client, pid } && (final(self).phase matches StartPhase::Registering { client: c2, pid: p2 } && c2 == client
                    && p2 == pid)
                &&& final(self).idx == old(self).idx
                &&& final(self).started_clients@ == old(self).started_clients@
                &&& final(self).started_pids@ == old(self).started_pids@
                &&& r matches StartAction::RegisterSinks { client: c3, resource, controller, tasker }
                    && (old(self).phase matches StartPhase::Connecting { client: c4, .. } && c3
                    == c4) && resource == old(self).resource && controller == old(self).controller
                    && tasker == old(self).tasker
            },
            ev is SinksRegistered ==> {
                &&& old(self).phase matches StartPhase::Registering { client, pid } && {
                    let clients2 = old(self).started_clients@.push(client);
                    let pids2 = old(self).started_pids@.push(pid);
                    &&& final(self).idx == old(self).idx + 1
                    &&& if old(self).idx + 1 < old(self).configs@.len() {
                        &&& final(self).phase is Creating
                        &&& final(self).started_clients@ == clients2
                        &&& final(self).started_pids@ == pids2
                        &&& r matches StartAction::CreateClient { compat_mode } && compat_mode
                            == old(self).compat_mode
                    } else {
                        &&& final(self).phase is Committed
                        &&& r matches StartAction::Commit { clients, pids } && clients@ == clients2
                            && pids@ == pids2
                    }
                }
            },
            ev is ClientCreateFailed ==> {
                &&& final(self).phase is Failed
                &&& r matches StartAction::Rollback { failed_client, failed_pid, clients, pids, error }
                    && {
                    &&& failed_client is None
                    &&& failed_pid is None
                    &&& clients@ == old(self).started_clients@
                    &&& pids@ == old(self).started_pids@
                    &&& error matches MaaError::ProtocolMismatch { agent_index: Some(i), .. } && i
                        == old(self).idx as u64
                }
            },
            ev is SocketIdFailed ==> {
                &&& final(self).phase is Failed
                &&& r matches StartAction::Rollback { failed_client, failed_pid, clients, pids, error }
                    && {
                    &&& failed_client == (match old(self).phase {
                        StartPhase::Identifying { client } => Some(client),
                        _ => None,
                    })
                    &&& failed_pid is None
                    &&& clients@ == old(self).started_clients@
                    &&& pids@ == old(self).started_pids@
                    &&& error matches MaaError::ProtocolMismatch { agent_index: Some(i), .. } && i
                        == old(self).idx as u64
                }
            },
            ev matches StartEvent::SpawnFailed { detail } ==> {
                &&& final(self).phase is Failed
                &&& r matches StartAction::Rollback { failed_client, failed_pid, clients, pids, error }
                    && {
                    &&& failed_client == (match old(self).phase {
                        StartPhase::Spawning { client } => Some(client),
                        _ => None,
                    })
                    &&& failed_pid is None
                    &&& clients@ == old(self).started_clients@
                    &&& pids@ == old(self).started_pids@
                    &&& error matches MaaError::ProcessSpawnFailed { agent_index, detail: d } && agent_index
                        == old(self).idx as u64 && d@ == detail@
                }
            },
            ev is ConnectFailed ==> {
                &&& final(self).phase is Failed
                &&& r matches StartAction::Rollback { failed_client, failed_pid, clients, pids, error }
                    && {
                    &&& failed_client == (match old(self).phase {
                        StartPhase::Connecting { client, .. } => Some(client),
                        _ => None,
                    })
                    &&& failed_pid == (match old(self).phase {
                        StartPhase::Connecting { pid, .. } => Some(pid),
                        _ => None,
                    })
                    &&& clients@ == old(self).started_clients@
                    &&& pids@ == old(self).started_pids@
                    &&& error matches MaaError::ConnectionFailed { agent_index: Some(i) } && i
                        == old(self).idx as u64
                }
            },
    {
        let ph = self.phase;
        match (ph, ev) {
            (StartPhase::Creating, StartEvent::ClientCreated { client }) => {
                self.phase = StartPhase::Identifying { client };
                StartAction::PrepareClient { client, resource: self.resource }
            },
            (StartPhase::Creating, StartEvent::ClientCreateFailed) => {
                self.fail(
                    None,
                    None,
                    MaaError::ProtocolMismatch {
                        agent_index: Some(self.idx as u64),
                        detail: String::from_str("failed to create agent client"),
                    },
                )
            },
            (StartPhase::Identifying { client }, StartEvent::GotSocketId { socket_id }) => {
                let cfg = &self.configs[self.idx];
                let joined = join_path(self.cwd.as_str(), cfg.child_exec.as_str());
                let exec_path = normalize_path(joined.as_str());
                let mut args: Vec<String> = Vec::new();
                let ghost base = match &cfg.child_args {
                    Some(a) => a@,
                    None => Seq::<String>::empty(),
                };
                match &cfg.child_args {
                    Some(list) => {
                        let mut i: usize = 0;
                        while i < list.len()
                            invariant
                                0 <= i <= list@.len(),
                                base == list@,
                                args@.len() == i,
                                forall|j: int|
                                    0 <= j < i ==> args@[j]@ == #[trigger] base[j]@,
                            decreases list@.len() - i,
                        {
                            args.push(list[i].clone());
                            i = i + 1;
                        }
                    },
                    None => {},
                }
                args.push(socket_id);
                let cwd_copy = self.cwd.clone();
                self.phase = StartPhase::Spawning { client };
                StartAction::SpawnChild { exec_path, args, cwd: cwd_copy }
            },
            (StartPhase::Identifying { client }, StartEvent::SocketIdFailed) => {
                self.fail(
                    Some(client),
                    None,
                    MaaError::ProtocolMismatch {
                        agent_index: Some(self.idx as u64),
                        detail: String::from_str("failed to get agent identifier"),
                    },
                )
            },
            (StartPhase::Spawning { client }, StartEvent::Spawned { pid }) => {
                let timeout_ms = match self.configs[self.idx].timeout {
                    Some(t) => t,
                    None => -1,
                };
                self.phase = StartPhase::Connecting { client, pid };
                StartAction::Connect { client, timeout_ms }
            },
            (StartPhase::Spawning { client }, StartEvent::SpawnFailed { detail }) => {
                let idx = self.idx as u64;
                self.fail(
                    Some(client),
                    None,
                    MaaError::ProcessSpawnFailed { agent_index: idx, detail },
                )
            },
            (StartPhase::Connecting { client, pid }, StartEvent::Connected) => {
                self.phase = StartPhase::Registering { client, pid };
                StartAction::RegisterSinks {
                    client,
                    resource: self.resource,
                    controller: self.controller,
                    tasker: self.tasker,
                }
            },
            (StartPhase::Connecting { client, pid }, StartEvent::ConnectFailed) => {
                self.fail(
                    Some(client),
                    Some(pid),
                    MaaError::ConnectionFailed { agent_index: Some(self.idx as u64) },
                )
            },
            (StartPhase::Registering { client, pid }, StartEvent::SinksRegistered) => {
                self.started_clients.push(client);
                self.started_pids.push(pid);
                let n = self.configs.len();
                proof {
                    assert(old(self).wf());
                    assert(self.idx < self.configs@.len());
                }
                self.idx = self.idx + 1;
                if self.idx < n {
                    self.phase = StartPhase::Creating;
                    StartAction::CreateClient { compat_mode: self.compat_mode }
                } else {
                    let mut clients: Vec<u64> = Vec::new();
                    let mut pids: Vec<u64> = Vec::new();
                    core::mem::swap(&mut self.started_clients, &mut clients);
                    core::mem::swap(&mut self.started_pids, &mut pids);
                    self.phase = StartPhase::Committed;
                    StartAction::Commit { clients, pids }
                }
            },
            _ => {
                // Every other pairing is ruled out by `accepts`.
                proof {
                    assert(false);
                }
                StartAction::CreateClient { compat_mode: false }
            },
        }
    }

    /// Ends the run in failure, draining the started lists into the
    /// rollback action.
    fn fail(&mut self, failed_client: Option<u64>, failed_pid: Option<u64>, error: MaaError) -> (r:
        StartAction)
        ensures
            final(self).phase is Failed,
            final(self).started_clients@.len() == 0,
            final(self).started_pids@.len() == 0,
            final(self).configs == old(self).configs,
            final(self).cwd == old(self).cwd,
            final(self).compat_mode == old(self).compat_mode,
            final(self).resource == old(self).resource,
            final(self).controller == old(self).controller,
            final(self).tasker == old(self).tasker,
            final(self).idx == old(self).idx,
            r matches StartAction::Rollback {
                failed_client: fc,
                failed_pid: fp,
                clients,
                pids,
                error: e,
            } && fc == failed_client && fp == failed_pid && clients@ == old(self).started_clients@ && pids@ == old(self).started_pids@ && e == error,
    {
        let mut clients: Vec<u64> = Vec::new();
        let mut pids: Vec<u64> = Vec::new();
        core::mem::swap(&mut self.started_clients, &mut clients);
        core::mem::swap(&mut self.started_pids, &mut pids);
        self.phase = StartPhase::Failed;
        StartAction::Rollback { failed_client, failed_pid, clients, pids, error }
    }
}

} // verus!
