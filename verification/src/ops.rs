//! Registry-backed operations behind the caller-facing commands: binding
//! handles, draining helpers, caching search results, and assembling
//! status snapshots. Engine calls themselves happen outside; these
//! functions decide them and commit their results.

use vstd::prelude::*;
use crate::errors::MaaError;
use crate::registry::{InstanceRuntime, MaaState};
use crate::types::{AdbDevice, AllInstanceStates, ConnectionStatus, InstanceState, Win32Window};
use crate::registry::copy_task_ids;

verus! {

/// Everything of the registry but the entry at `i` (and only its record)
/// is the same.
pub open spec fn same_except(pre: MaaState, post: MaaState, i: int) -> bool {
    &&& post.instances@.len() == pre.instances@.len()
    &&& forall|j: int|
        0 <= j < pre.instances@.len() && j != i ==> post.instances@[j] == pre.instances@[j]
    &&& post.instances@[i].0 == pre.instances@[i].0
    &&& post.lib_dir == pre.lib_dir
    &&& post.resource_dir == pre.resource_dir
    &&& post.cached_adb_devices == pre.cached_adb_devices
    &&& post.cached_win32_windows == pre.cached_win32_windows
}

/// The two records hold the same engine handles.
pub open spec fn same_handles(a: InstanceRuntime, b: InstanceRuntime) -> bool {
    &&& a.resource == b.resource
    &&& a.controller == b.controller
    &&& a.tasker == b.tasker
}

/// The two records hold the same helper lists.
pub open spec fn same_agents(a: InstanceRuntime, b: InstanceRuntime) -> bool {
    &&& a.agent_clients@ == b.agent_clients@
    &&& a.agent_children@ == b.agent_children@
}

/// The two records hold the same cached task ids.
pub open spec fn same_tasks(a: InstanceRuntime, b: InstanceRuntime) -> bool {
    a.task_ids@ == b.task_ids@
}

/// The two records hold the same stop-throttle state.
pub open spec fn same_stop(a: InstanceRuntime, b: InstanceRuntime) -> bool {
    &&& a.stop_in_progress == b.stop_in_progress
    &&& a.stop_started_at_ms == b.stop_started_at_ms
}

pub proof fn lemma_wf_update(pre: MaaState, post: MaaState, i: int)
    requires
        pre.wf(),
        0 <= i < pre.instances@.len(),
        same_except(pre, post, i),
        post.instances@[i].1.wf(),
    ensures
        post.wf(),
        forall|id: Seq<char>| post.has_instance(id) == pre.has_instance(id),
        post.index_of(pre.instances@[i].0@) == i,
{
    assert forall|j: int| 0 <= j < post.ids().len() implies post.ids()[j] == pre.ids()[j] by {
        if j != i {
            assert(post.instances@[j] == pre.instances@[j]);
        }
    }
    assert(post.ids() =~= pre.ids());
    assert forall|a: int|
        0 <= a < post.instances@.len() implies (#[trigger] post.instances@[a].1).wf() by {
        if a != i {
            assert(post.instances@[a] == pre.instances@[a]);
        }
    }
    let id = pre.instances@[i].0@;
    let w = post.index_of(id);
    assert(post.ids()[i] == id);
    assert(0 <= w < post.ids().len() && post.ids()[w] == id);
    if w != i {
        if w < i {
            assert(pre.ids()[w] != pre.ids()[i]);
        } else {
            assert(pre.ids()[i] != pre.ids()[w]);
        }
    }
}

/// Remembers where the engine library was loaded from.
pub fn set_lib_dir(state: &mut MaaState, lib_dir: String)
    ensures
        final(state).lib_dir == Some(lib_dir),
        final(state).resource_dir == old(state).resource_dir,
        final(state).instances == old(state).instances,
        final(state).cached_adb_devices == old(state).cached_adb_devices,
        final(state).cached_win32_windows == old(state).cached_win32_windows,
{
    state.lib_dir = Some(lib_dir);
}

/// Remembers the configured resource directory.
pub fn maa_set_resource_dir(state: &mut MaaState, resource_dir: String) -> (r: Result<
    (),
    MaaError,
>)
    ensures
        r is Ok,
        final(state).resource_dir == Some(resource_dir),
        final(state).lib_dir == old(state).lib_dir,
        final(state).instances == old(state).instances,
        final(state).cached_adb_devices == old(state).cached_adb_devices,
        final(state).cached_win32_windows == old(state).cached_win32_windows,
{
    state.resource_dir = Some(resource_dir);
    Ok(())
}

/// Replaces the shared ADB device cache with a fresh search result.
pub fn cache_adb_devices(state: &mut MaaState, devices: Vec<AdbDevice>)
    ensures
        final(state).cached_adb_devices == devices,
        final(state).lib_dir == old(state).lib_dir,
        final(state).resource_dir == old(state).resource_dir,
        final(state).instances == old(state).instances,
        final(state).cached_win32_windows == old(state).cached_win32_windows,
{
    state.cached_adb_devices = devices;
}

/// Replaces the shared window cache with a fresh search result.
pub fn cache_win32_windows(state: &mut MaaState, windows: Vec<Win32Window>)
    ensures
        final(state).cached_win32_windows == windows,
        final(state).lib_dir == old(state).lib_dir,
        final(state).resource_dir == old(state).resource_dir,
        final(state).instances == old(state).instances,
        final(state).cached_adb_devices == old(state).cached_adb_devices,
{
    state.cached_win32_windows = windows;
}

/// The shared ADB device cache.
pub fn maa_get_cached_adb_devices(state: &MaaState) -> (r: &Vec<AdbDevice>)
    ensures
        r@ == state.cached_adb_devices@,
{
    &state.cached_adb_devices
}

/// The shared window cache.
pub fn maa_get_cached_win32_windows(state: &MaaState) -> (r: &Vec<Win32Window>)
    ensures
        r@ == state.cached_win32_windows@,
{
    &state.cached_win32_windows
}

/// The engine handles of an instance, for the caller to query or drive
/// the engine with.
pub fn get_handles(state: &MaaState, instance_id: &String) -> (r: Result<
    (Option<u64>, Option<u64>, Option<u64>),
    MaaError,
>)
    requires
        state.wf(),
    ensures
        state.has_instance(instance_id@) ==> (r matches Ok(h) && {
            let rec = state.record_of(instance_id@);
            h == (rec.resource, rec.controller, rec.tasker)
        }),
        !state.has_instance(instance_id@) ==> (r matches Err(e) && e is NotFound),
{
    match state.find(instance_id) {
        None => Err(MaaError::NotFound),
        Some(i) => {
            let rec = &state.instances[i].1;
            Ok((rec.resource, rec.controller, rec.tasker))
        },
    }
}

/// The connection status the engine's boolean maps to.
pub fn connection_status_from(connected: bool) -> (r: ConnectionStatus)
    ensures
        connected ==> r is Connected,
        !connected ==> r is Disconnected,
{
    if connected {
        ConnectionStatus::Connected
    } else {
        ConnectionStatus::Disconnected
    }
}

/// Which tasker the submission path should use: an existing one is
/// reused, otherwise the caller creates one, registers its two event
/// sinks, binds the resource and then the controller, and commits it.
pub enum TaskerPlan {
    UseExisting { tasker: u64 },
    CreateTasker { resource: u64, controller: u64 },
}

/// Decides how to obtain a bound tasker for an instance. Fails with
/// `NotInitialized` when the engine library is not loaded or the
/// instance lacks a resource or controller.
pub fn plan_tasker(engine_loaded: bool, rec: &InstanceRuntime) -> (r: Result<
    TaskerPlan,
    MaaError,
>)
    ensures
        !engine_loaded ==> (r matches Err(e) && e is NotInitialized),
        engine_loaded && rec.resource is None ==> (r matches Err(e) && e is NotInitialized),
        engine_loaded && rec.resource is Some && rec.controller is None ==> (r matches Err(e)
            && e is NotInitialized),
        engine_loaded && rec.resource is Some && rec.controller is Some ==> match rec.tasker {
            Some(t) => r matches Ok(TaskerPlan::UseExisting { tasker }) && tasker == t,
            None => r matches Ok(TaskerPlan::CreateTasker { resource, controller })
                && Some(resource) == rec.resource && Some(controller) == rec.controller,
        },
{
    if !engine_loaded {
        return Err(MaaError::NotInitialized);
    }
    let resource = match rec.resource {
        Some(h) => h,
        None => { return Err(MaaError::NotInitialized); },
    };
    let controller = match rec.controller {
        Some(h) => h,
        None => { return Err(MaaError::NotInitialized); },
    };
    match rec.tasker {
        Some(t) => Ok(TaskerPlan::UseExisting { tasker: t }),
        None => Ok(TaskerPlan::CreateTasker { resource, controller }),
    }
}

/// Stores a freshly created and bound tasker on its instance; at most one
/// tasker ever exists per instance, so an already-present tasker is
/// refused.
pub fn commit_tasker(state: &mut MaaState, instance_id: &String, tasker: u64) -> (r: Result<
    (),
    MaaError,
>)
    requires
        old(state).wf(),
    ensures
        final(state).wf(),
        !old(state).has_instance(instance_id@) ==> (r matches Err(e) && e is NotFound && *final(state) == *old(state)),
        old(state).has_instance(instance_id@) && old(state).record_of(
            instance_id@,
        ).tasker is Some ==> (r matches Err(e) && e is ProtocolMismatch && *final(state) == *old(
            state,
        )),
        old(state).has_instance(instance_id@) && old(state).record_of(
            instance_id@,
        ).tasker is None ==> r is Ok && {
            let i = old(state).index_of(instance_id@);
            let orec = old(state).record_of(instance_id@);
            let nrec = final(state).instances@[i].1;
            &&& same_except(*old(state), *final(state), i)
            &&& nrec.tasker == Some(tasker)
            &&& nrec.resource == orec.resource
            &&& nrec.controller == orec.controller
            &&& same_agents(orec, nrec)
            &&& same_tasks(orec, nrec)
            &&& same_stop(orec, nrec)
            &&& final(state).has_instance(instance_id@)
            &&& final(state).index_of(instance_id@) == i
        },
{
    let ghost pre = *state;
    match state.find(instance_id) {
        None => Err(MaaError::NotFound),
        Some(i) => {
            if state.instances[i].1.tasker.is_some() {
                return Err(MaaError::ProtocolMismatch {
                    agent_index: None,
                    detail: String::from_str("tasker already bound"),
                });
            }
            let entry = &mut state.instances[i];
            entry.1.tasker = Some(tasker);
            proof {
                lemma_wf_update(pre, *state, i as int);
            }
            Ok(())
        },
    }
}

/// Which resource handle the load path should use; `None` asks the
/// caller to create one, register its sink, and commit it.
pub fn plan_resource(state: &MaaState, instance_id: &String) -> (r: Result<Option<u64>, MaaError>)
    requires
        state.wf(),
    ensures
        !state.has_instance(instance_id@) ==> (r matches Err(e) && e is NotFound),
        state.has_instance(instance_id@) ==> (r matches Ok(h) && h == state.record_of(
            instance_id@,
        ).resource),
{
    match state.find(instance_id) {
        None => Err(MaaError::NotFound),
        Some(i) => Ok(state.instances[i].1.resource),
    }
}

/// Stores a freshly created resource on its instance.
pub fn commit_resource(state: &mut MaaState, instance_id: &String, resource: u64) -> (r: Result<
    (),
    MaaError,
>)
    requires
        old(state).wf(),
    ensures
        final(state).wf(),
        !old(state).has_instance(instance_id@) ==> (r matches Err(e) && e is NotFound && *final(state) == *old(state)),
        old(state).has_instance(instance_id@) ==> r is Ok && {
            let i = old(state).index_of(instance_id@);
            let orec = old(state).record_of(instance_id@);
            let nrec = final(state).instances@[i].1;
            &&& same_except(*old(state), *final(state), i)
            &&& nrec.resource == Some(resource)
            &&& nrec.controller == orec.controller
            &&& nrec.tasker == orec.tasker
            &&& same_agents(orec, nrec)
            &&& same_tasks(orec, nrec)
            &&& same_stop(orec, nrec)
        },
{
    let ghost pre = *state;
    match state.find(instance_id) {
        None => Err(MaaError::NotFound),
        Some(i) => {
            let entry = &mut state.instances[i];
            entry.1.resource = Some(resource);
            proof {
                lemma_wf_update(pre, *state, i as int);
            }
            Ok(())
        },
    }
}

/// Stores a connected controller on its instance. Any tasker bound to the
/// previous controller is dropped from the record so the next submission
/// rebinds; the old handles come back for the caller to destroy.
pub fn commit_controller(state: &mut MaaState, instance_id: &String, controller: u64) -> (r:
    Result<(Option<u64>, Option<u64>), MaaError>)
    requires
        old(state).wf(),
    ensures
        final(state).wf(),
        !old(state).has_instance(instance_id@) ==> (r matches Err(e) && e is NotFound && *final(state) == *old(state)),
        old(state).has_instance(instance_id@) ==> {
            let i = old(state).index_of(instance_id@);
            let orec = old(state).record_of(instance_id@);
            let nrec = final(state).instances@[i].1;
            &&& r matches Ok(prev) && prev == (orec.controller, orec.tasker)
            &&& same_except(*old(state), *final(state), i)
            &&& nrec.controller == Some(controller)
            &&& nrec.tasker is None
            &&& nrec.resource == orec.resource
            &&& same_agents(orec, nrec)
            &&& same_tasks(orec, nrec)
            &&& same_stop(orec, nrec)
        },
{
    let ghost pre = *state;
    match state.find(instance_id) {
        None => Err(MaaError::NotFound),
        Some(i) => {
            let entry = &mut state.instances[i];
            let prev_controller = entry.1.controller;
            let prev_tasker = entry.1.tasker;
            entry.1.controller = Some(controller);
            entry.1.tasker = None;
            proof {
                lemma_wf_update(pre, *state, i as int);
            }
            Ok((prev_controller, prev_tasker))
        },
    }
}

/// Clears an instance's resource (and the tasker bound to it) so a new
/// one can be created; the old handles come back for the caller to
/// destroy.
pub fn maa_destroy_resource(state: &mut MaaState, instance_id: &String) -> (r: Result<
    (Option<u64>, Option<u64>),
    MaaError,
>)
    requires
        old(state).wf(),
    ensures
        final(state).wf(),
        !old(state).has_instance(instance_id@) ==> (r matches Err(e) && e is NotFound && *final(state) == *old(state)),
        old(state).has_instance(instance_id@) ==> {
            let i = old(state).index_of(instance_id@);
            let orec = old(state).record_of(instance_id@);
            let nrec = final(state).instances@[i].1;
            &&& r matches Ok(prev) && prev == (orec.resource, orec.tasker)
            &&& same_except(*old(state), *final(state), i)
            &&& nrec.resource is None
            &&& nrec.tasker is None
            &&& nrec.controller == orec.controller
            &&& same_agents(orec, nrec)
            &&& same_tasks(orec, nrec)
            &&& same_stop(orec, nrec)
        },
{
    let ghost pre = *state;
    match state.find(instance_id) {
        None => Err(MaaError::NotFound),
        Some(i) => {
            let entry = &mut state.instances[i];
            let prev_resource = entry.1.resource;
            let prev_tasker = entry.1.tasker;
            entry.1.resource = None;
            entry.1.tasker = None;
            proof {
                lemma_wf_update(pre, *state, i as int);
            }
            Ok((prev_resource, prev_tasker))
        },
    }
}

/// Appends one freshly posted task id to an instance's cached list.
pub fn record_task_id(state: &mut MaaState, instance_id: &String, task_id: i64) -> (r: Result<
    (),
    MaaError,
>)
    requires
        old(state).wf(),
    ensures
        final(state).wf(),
        !old(state).has_instance(instance_id@) ==> (r matches Err(e) && e is NotFound && *final(state) == *old(state)),
        old(state).has_instance(instance_id@) ==> r is Ok && {
            let i = old(state).index_of(instance_id@);
            let orec = old(state).record_of(instance_id@);
            let nrec = final(state).instances@[i].1;
            &&& same_except(*old(state), *final(state), i)
            &&& nrec.task_ids@ == orec.task_ids@.push(task_id)
            &&& same_handles(orec, nrec)
            &&& same_agents(orec, nrec)
            &&& same_stop(orec, nrec)
        },
{
    let ghost pre = *state;
    match state.find(instance_id) {
        None => Err(MaaError::NotFound),
        Some(i) => {
            let entry = &mut state.instances[i];
            entry.1.task_ids.push(task_id);
            proof {
                lemma_wf_update(pre, *state, i as int);
            }
            Ok(())
        },
    }
}

/// Replaces an instance's cached task-id list after a batch submission,
/// so a restarted caller can recover what is running.
pub fn cache_task_ids(state: &mut MaaState, instance_id: &String, task_ids: Vec<i64>) -> (r:
    Result<(), MaaError>)
    requires
        old(state).wf(),
    ensures
        final(state).wf(),
        !old(state).has_instance(instance_id@) ==> (r matches Err(e) && e is NotFound && *final(state) == *old(state)),
        old(state).has_instance(instance_id@) ==> r is Ok && {
            let i = old(state).index_of(instance_id@);
            let orec = old(state).record_of(instance_id@);
            let nrec = final(state).instances@[i].1;
            &&& same_except(*old(state), *final(state), i)
            &&& nrec.task_ids@ == task_ids@
            &&& same_handles(orec, nrec)
            &&& same_agents(orec, nrec)
            &&& same_stop(orec, nrec)
        },
{
    let ghost pre = *state;
    match state.find(instance_id) {
        None => Err(MaaError::NotFound),
        Some(i) => {
            let entry = &mut state.instances[i];
            entry.1.task_ids = task_ids;
            proof {
                lemma_wf_update(pre, *state, i as int);
            }
            Ok(())
        },
    }
}

/// Commits a fully successful orchestration: every started helper client
/// and child joins the instance's lists as one unit.
pub fn commit_agents(
    state: &mut MaaState,
    instance_id: &String,
    clients: Vec<u64>,
    children: Vec<u64>,
) -> (r: Result<(), MaaError>)
    requires
        old(state).wf(),
        clients@.len() == children@.len(),
    ensures
        final(state).wf(),
        !old(state).has_instance(instance_id@) ==> (r matches Err(e) && e is NotFound && *final(state) == *old(state)),
        old(state).has_instance(instance_id@) ==> r is Ok && {
            let i = old(state).index_of(instance_id@);
            let orec = old(state).record_of(instance_id@);
            let nrec = final(state).instances@[i].1;
            &&& same_except(*old(state), *final(state), i)
            &&& nrec.agent_clients@ == orec.agent_clients@ + clients@
            &&& nrec.agent_children@ == orec.agent_children@ + children@
            &&& same_handles(orec, nrec)
            &&& same_tasks(orec, nrec)
            &&& same_stop(orec, nrec)
        },
{
    let ghost pre = *state;
    match state.find(instance_id) {
        None => Err(MaaError::NotFound),
        Some(i) => {
            let entry = &mut state.instances[i];
            crate::registry::append_all(&mut entry.1.agent_clients, &clients);
            crate::registry::append_all(&mut entry.1.agent_children, &children);
            proof {
                lemma_wf_update(pre, *state, i as int);
            }
            Ok(())
        },
    }
}

/// Atomically drains an instance's helper lists. The caller disconnects
/// and destroys the returned clients and waits on the returned children
/// off the calling thread; a concurrent second call finds both lists
/// empty and has nothing to do.
pub fn maa_stop_agent(state: &mut MaaState, instance_id: &String) -> (r: Result<
    (Vec<u64>, Vec<u64>),
    MaaError,
>)
    requires
        old(state).wf(),
    ensures
        final(state).wf(),
        !old(state).has_instance(instance_id@) ==> (r matches Err(e) && e is NotFound && *final(state) == *old(state)),
        old(state).has_instance(instance_id@) ==> {
            let i = old(state).index_of(instance_id@);
            let orec = old(state).record_of(instance_id@);
            let nrec = final(state).instances@[i].1;
            &&& r matches Ok(drained) && drained.0@ == orec.agent_clients@ && drained.1@
                == orec.agent_children@
            &&& same_except(*old(state), *final(state), i)
            &&& nrec.agent_clients@ =~= Seq::<u64>::empty()
            &&& nrec.agent_children@ =~= Seq::<u64>::empty()
            &&& same_handles(orec, nrec)
            &&& same_tasks(orec, nrec)
            &&& same_stop(orec, nrec)
        },
{
    let ghost pre = *state;
    match state.find(instance_id) {
        None => Err(MaaError::NotFound),
        Some(i) => {
            let entry = &mut state.instances[i];
            let mut clients: Vec<u64> = Vec::new();
            let mut children: Vec<u64> = Vec::new();
            core::mem::swap(&mut entry.1.agent_clients, &mut clients);
            core::mem::swap(&mut entry.1.agent_children, &mut children);
            proof {
                lemma_wf_update(pre, *state, i as int);
            }
            Ok((clients, children))
        },
    }
}

/// What the caller observed from the engine about one instance.
#[derive(Clone, Copy, Debug, PartialEq, Eq, Structural)]
pub struct EngineProbe {
    pub connected: bool,
    pub resource_loaded: bool,
    pub tasker_inited: bool,
    pub is_running: bool,
}

/// Assembles one instance's status snapshot from what the engine
/// reported. Observing that nothing runs clears a pending stop.
pub fn maa_get_instance_state(
    state: &mut MaaState,
    instance_id: &String,
    probe: EngineProbe,
) -> (r: Result<InstanceState, MaaError>)
    requires
        old(state).wf(),
    ensures
        final(state).wf(),
        !old(state).has_instance(instance_id@) ==> (r matches Err(e) && e is NotFound && *final(state) == *old(state)),
        old(state).has_instance(instance_id@) ==> {
            let i = old(state).index_of(instance_id@);
            let orec = old(state).record_of(instance_id@);
            let nrec = final(state).instances@[i].1;
            &&& r matches Ok(st) && {
                &&& st.connected == probe.connected
                &&& st.resource_loaded == probe.resource_loaded
                &&& st.tasker_inited == probe.tasker_inited
                &&& st.is_running == probe.is_running
                &&& st.task_ids@ == orec.task_ids@
            }
            &&& same_except(*old(state), *final(state), i)
            &&& same_handles(orec, nrec)
            &&& same_agents(orec, nrec)
            &&& same_tasks(orec, nrec)
            &&& if !probe.is_running && orec.stop_in_progress {
                nrec.stop_in_progress == false && nrec.stop_started_at_ms is None
            } else {
                same_stop(orec, nrec)
            }
        },
{
    let ghost pre = *state;
    match state.find(instance_id) {
        None => Err(MaaError::NotFound),
        Some(i) => {
            let entry = &mut state.instances[i];
            if !probe.is_running && entry.1.stop_in_progress {
                entry.1.stop_in_progress = false;
                entry.1.stop_started_at_ms = None;
            }
            let st = InstanceState {
                connected: probe.connected,
                resource_loaded: probe.resource_loaded,
                tasker_inited: probe.tasker_inited,
                is_running: probe.is_running,
                task_ids: copy_task_ids(&entry.1.task_ids),
            };
            proof {
                lemma_wf_update(pre, *state, i as int);
            }
            Ok(st)
        },
    }
}

/// Assembles the snapshot of every instance, with the probe at each
/// position describing the instance at the same position.
pub fn maa_get_all_states(state: &mut MaaState, probes: &Vec<EngineProbe>) -> (r: Result<
    AllInstanceStates,
    MaaError,
>)
    requires
        old(state).wf(),
        probes@.len() == old(state).instances@.len(),
    ensures
        final(state).wf(),
        r matches Ok(all) && {
            &&& all.instances@.len() == old(state).instances@.len()
            &&& forall|i: int|
                0 <= i < all.instances@.len() ==> {
                    let e = #[trigger] all.instances@[i];
                    let orec = old(state).instances@[i].1;
                    &&& e.0@ == old(state).instances@[i].0@
                    &&& e.1.connected == probes@[i].connected
                    &&& e.1.resource_loaded == probes@[i].resource_loaded
                    &&& e.1.tasker_inited == probes@[i].tasker_inited
                    &&& e.1.is_running == probes@[i].is_running
                    &&& e.1.task_ids@ == orec.task_ids@
                }
            &&& all.cached_adb_devices@.len() == old(state).cached_adb_devices@.len()
            &&& forall|i: int|
                0 <= i < all.cached_adb_devices@.len() ==> adb_device_like(
                    old(state).cached_adb_devices@[i],
                    #[trigger] all.cached_adb_devices@[i],
                )
            &&& all.cached_win32_windows@.len() == old(state).cached_win32_windows@.len()
            &&& forall|i: int|
                0 <= i < all.cached_win32_windows@.len() ==> win32_window_like(
                    old(state).cached_win32_windows@[i],
                    #[trigger] all.cached_win32_windows@[i],
                )
        },
        final(state).instances@.len() == old(state).instances@.len(),
        forall|i: int|
            0 <= i < final(state).instances@.len() ==> {
                let nrec = (#[trigger] final(state).instances@[i]).1;
                let orec = old(state).instances@[i].1;
                &&& final(state).instances@[i].0 == old(state).instances@[i].0
                &&& same_handles(orec, nrec)
                &&& same_agents(orec, nrec)
                &&& same_tasks(orec, nrec)
                &&& if !probes@[i].is_running && orec.stop_in_progress {
                    nrec.stop_in_progress == false && nrec.stop_started_at_ms is None
                } else {
                    same_stop(orec, nrec)
                }
            },
        final(state).lib_dir == old(state).lib_dir,
        final(state).resource_dir == old(state).resource_dir,
{
    let ghost pre = *state;
    let mut snapshots: Vec<(String, InstanceState)> = Vec::new();
    let n = state.instances.len();
    let mut i: usize = 0;
    while i < n
        invariant
            0 <= i <= n,
            n == state.instances@.len(),
            n == pre.instances@.len(),
            n == probes@.len(),
            snapshots@.len() == i,
            forall|j: int|
                0 <= j < i ==> {
                    let e = #[trigger] snapshots@[j];
                    let orec = pre.instances@[j].1;
                    &&& e.0@ == pre.instances@[j].0@
                    &&& e.1.connected == probes@[j].connected
                    &&& e.1.resource_loaded == probes@[j].resource_loaded
                    &&& e.1.tasker_inited == probes@[j].tasker_inited
                    &&& e.1.is_running == probes@[j].is_running
                    &&& e.1.task_ids@ == orec.task_ids@
                },
            forall|j: int| i <= j < n ==> #[trigger] state.instances@[j] == pre.instances@[j],
            forall|j: int|
                0 <= j < i ==> {
                    let nrec = (#[trigger] state.instances@[j]).1;
                    let orec = pre.instances@[j].1;
                    &&& state.instances@[j].0 == pre.instances@[j].0
                    &&& same_handles(orec, nrec)
                    &&& same_agents(orec, nrec)
                    &&& same_tasks(orec, nrec)
                    &&& if !probes@[j].is_running && orec.stop_in_progress {
                        nrec.stop_in_progress == false && nrec.stop_started_at_ms is None
                    } else {
                        same_stop(orec, nrec)
                    }
                },
            state.lib_dir == pre.lib_dir,
            state.resource_dir == pre.resource_dir,
            state.cached_adb_devices == pre.cached_adb_devices,
            state.cached_win32_windows == pre.cached_win32_windows,
        decreases n - i,
    {
        let probe = probes[i];
        let entry = &mut state.instances[i];
        if !probe.is_running && entry.1.stop_in_progress {
            entry.1.stop_in_progress = false;
            entry.1.stop_started_at_ms = None;
        }
        let id_copy = entry.0.clone();
        let st = InstanceState {
            connected: probe.connected,
            resource_loaded: probe.resource_loaded,
            tasker_inited: probe.tasker_inited,
            is_running: probe.is_running,
            task_ids: copy_task_ids(&entry.1.task_ids),
        };
        snapshots.push((id_copy, st));
        i = i + 1;
    }
    let adb = copy_adb_devices(&state.cached_adb_devices);
    let win = copy_win32_windows(&state.cached_win32_windows);
    proof {
        assert forall|a: int, b: int|
            0 <= a < b < state.ids().len() implies state.ids()[a] != state.ids()[b] by {
            assert(state.instances@[a].0 == pre.instances@[a].0);
            assert(state.instances@[b].0 == pre.instances@[b].0);
            assert(pre.ids()[a] != pre.ids()[b]);
        }
    }
    Ok(
        AllInstanceStates {
            instances: snapshots,
            cached_adb_devices: adb,
            cached_win32_windows: win,
        },
    )
}

/// The two device descriptions hold the same data.
pub open spec fn adb_device_like(a: AdbDevice, b: AdbDevice) -> bool {
    &&& a.name@ == b.name@
    &&& a.adb_path@ == b.adb_path@
    &&& a.address@ == b.address@
    &&& a.screencap_methods == b.screencap_methods
    &&& a.input_methods == b.input_methods
    &&& a.config@ == b.config@
}

/// The two window descriptions hold the same data.
pub open spec fn win32_window_like(a: Win32Window, b: Win32Window) -> bool {
    &&& a.handle == b.handle
    &&& a.class_name@ == b.class_name@
    &&& a.window_name@ == b.window_name@
}

/// Copies the ADB device cache field for field.
fn copy_adb_devices(v: &Vec<AdbDevice>) -> (r: Vec<AdbDevice>)
    ensures
        r@.len() == v@.len(),
        forall|i: int| 0 <= i < v@.len() ==> adb_device_like(v@[i], #[trigger] r@[i]),
{
    let mut out: Vec<AdbDevice> = Vec::new();
    let mut i: usize = 0;
    while i < v.len()
        invariant
            0 <= i <= v@.len(),
            out@.len() == i,
            forall|j: int| 0 <= j < i ==> adb_device_like(v@[j], #[trigger] out@[j]),
        decreases v@.len() - i,
    {
        let d = &v[i];
        out.push(
            AdbDevice {
                name: d.name.clone(),
                adb_path: d.adb_path.clone(),
                address: d.address.clone(),
                screencap_methods: d.screencap_methods,
                input_methods: d.input_methods,
                config: d.config.clone(),
            },
        );
        i = i + 1;
    }
    out
}

/// Copies the window cache field for field.
fn copy_win32_windows(v: &Vec<Win32Window>) -> (r: Vec<Win32Window>)
    ensures
        r@.len() == v@.len(),
        forall|i: int| 0 <= i < v@.len() ==> win32_window_like(v@[i], #[trigger] r@[i]),
{
    let mut out: Vec<Win32Window> = Vec::new();
    let mut i: usize = 0;
    while i < v.len()
        invariant
            0 <= i <= v@.len(),
            out@.len() == i,
            forall|j: int| 0 <= j < i ==> win32_window_like(v@[j], #[trigger] out@[j]),
        decreases v@.len() - i,
    {
        let w = &v[i];
        out.push(
            Win32Window {
                handle: w.handle,
                class_name: w.class_name.clone(),
                window_name: w.window_name.clone(),
            },
        );
        i = i + 1;
    }
    out
}

} // verus!
