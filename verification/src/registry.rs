//! The instance registry: a keyed store of per-instance runtime state.
//! It owns the engine handles and helper lists of every instance and is
//! the only place they are committed to or drained from.

use vstd::prelude::*;
use crate::errors::MaaError;
use crate::types::AdbDevice;
use crate::types::Win32Window;

verus! {

/// The runtime record of one instance. Engine handles are carried as the
/// opaque integers the engine hands out; the helper-client and
/// helper-child lists always have equal length and change only as a unit.
pub struct InstanceRuntime {
    pub resource: Option<u64>,
    pub controller: Option<u64>,
    pub tasker: Option<u64>,
    pub agent_clients: Vec<u64>,
    pub agent_children: Vec<u64>,
    pub task_ids: Vec<i64>,
    pub stop_in_progress: bool,
    pub stop_started_at_ms: Option<u64>,
}

impl InstanceRuntime {
    /// The record's internal invariant: one child process per helper
    /// client.
    pub open spec fn wf(self) -> bool {
        self.agent_clients@.len() == self.agent_children@.len()
    }

    /// Whether the record holds nothing yet.
    pub open spec fn is_empty_record(self) -> bool {
        &&& self.resource is None
        &&& self.controller is None
        &&& self.tasker is None
        &&& self.agent_clients@ =~= Seq::<u64>::empty()
        &&& self.agent_children@ =~= Seq::<u64>::empty()
        &&& self.task_ids@ =~= Seq::<i64>::empty()
        &&& self.stop_in_progress == false
        &&& self.stop_started_at_ms is None
    }

    /// A fresh, empty record.
    pub fn new() -> (r: InstanceRuntime)
        ensures
            r.is_empty_record(),
            r.wf(),
    {
        InstanceRuntime {
            resource: None,
            controller: None,
            tasker: None,
            agent_clients: Vec::new(),
            agent_children: Vec::new(),
            task_ids: Vec::new(),
            stop_in_progress: false,
            stop_started_at_ms: None,
        }
    }
}

/// Everything an instance held, laid out in release order: helper clients
/// are disconnected and destroyed first and their children killed and
/// waited on, then the tasker, the controller and finally the resource
/// are destroyed — the reverse of acquisition.
pub struct TeardownPlan {
    pub agent_clients: Vec<u64>,
    pub agent_children: Vec<u64>,
    pub tasker: Option<u64>,
    pub controller: Option<u64>,
    pub resource: Option<u64>,
}

/// The process-wide runtime state: library and resource directories, the
/// instance registry, and the shared device and window caches.
pub struct MaaState {
    pub lib_dir: Option<String>,
    pub resource_dir: Option<String>,
    pub instances: Vec<(String, InstanceRuntime)>,
    pub cached_adb_devices: Vec<AdbDevice>,
    pub cached_win32_windows: Vec<Win32Window>,
}

impl MaaState {
    /// The registered instance ids, in insertion order.
    pub open spec fn ids(self) -> Seq<Seq<char>> {
        Seq::new(self.instances@.len(), |i: int| self.instances@[i].0@)
    }

    /// The registry invariant: ids are unique and every record is
    /// well-formed.
    pub open spec fn wf(self) -> bool {
        &&& forall|i: int, j: int|
            0 <= i < j < self.ids().len() ==> self.ids()[i] != self.ids()[j]
        &&& forall|i: int|
            0 <= i < self.instances@.len() ==> (#[trigger] self.instances@[i].1).wf()
    }

    /// Whether an instance with this id is registered.
    pub open spec fn has_instance(self, id: Seq<char>) -> bool {
        exists|i: int| 0 <= i < self.ids().len() && self.ids()[i] == id
    }

    /// The position of the instance with this id; meaningful only when
    /// the id is registered, unique when the registry is well-formed.
    pub open spec fn index_of(self, id: Seq<char>) -> int {
        choose|i: int| 0 <= i < self.ids().len() && self.ids()[i] == id
    }

    /// The record registered under this id.
    pub open spec fn record_of(self, id: Seq<char>) -> InstanceRuntime {
        self.instances@[self.index_of(id)].1
    }

    /// An empty registry with nothing configured.
    pub fn new() -> (r: MaaState)
        ensures
            r.wf(),
            r.lib_dir is None,
            r.resource_dir is None,
            r.instances@ =~= Seq::<(String, InstanceRuntime)>::empty(),
            r.cached_adb_devices@ =~= Seq::<AdbDevice>::empty(),
            r.cached_win32_windows@ =~= Seq::<Win32Window>::empty(),
    {
        MaaState {
            lib_dir: None,
            resource_dir: None,
            instances: Vec::new(),
            cached_adb_devices: Vec::new(),
            cached_win32_windows: Vec::new(),
        }
    }

    /// Finds the position of an instance by id.
    pub fn find(&self, instance_id: &String) -> (r: Option<usize>)
        requires
            self.wf(),
        ensures
            match r {
                Some(i) => {
                    &&& i < self.instances@.len()
                    &&& self.instances@[i as int].0@ == instance_id@
                    &&& self.has_instance(instance_id@)
                    &&& i as int == self.index_of(instance_id@)
                },
                None => !self.has_instance(instance_id@),
            },
    {
        let n = self.instances.len();
        let mut i: usize = 0;
        while i < n
            invariant
                self.wf(),
                0 <= i <= n,
                n == self.instances@.len(),
                forall|j: int| 0 <= j < i ==> self.ids()[j] != instance_id@,
            decreases n - i,
        {
            if self.instances[i].0.eq(instance_id) {
                proof {
                    assert(self.ids()[i as int] == instance_id@);
                    let w = self.index_of(instance_id@);
                    assert(0 <= w < self.ids().len() && self.ids()[w] == instance_id@);
                    if w != i as int {
                        if w < i as int {
                            assert(self.ids()[w] != self.ids()[i as int]);
                        } else {
                            assert(self.ids()[i as int] != self.ids()[w]);
                        }
                    }
                }
                return Some(i);
            }
            proof {
                assert(self.ids()[i as int] == self.instances@[i as int].0@);
            }
            i = i + 1;
        }
        None
    }
}

/// Copies a task-id list.
pub fn copy_task_ids(v: &Vec<i64>) -> (r: Vec<i64>)
    ensures
        r@ == v@,
{
    let mut out: Vec<i64> = Vec::new();
    let mut i: usize = 0;
    while i < v.len()
        invariant
            0 <= i <= v@.len(),
            out@ == v@.take(i as int),
        decreases v@.len() - i,
    {
        out.push(v[i]);
        proof {
            assert(v@.take(i + 1) =~= v@.take(i as int).push(v@[i as int]));
        }
        i = i + 1;
    }
    proof {
        assert(v@.take(v@.len() as int) =~= v@);
    }
    out
}

/// Registers an instance if the id is new; an existing instance is left
/// untouched and the call still succeeds.
pub fn maa_create_instance(state: &mut MaaState, instance_id: String) -> (r: Result<
    (),
    MaaError,
>)
    requires
        old(state).wf(),
    ensures
        final(state).wf(),
        r is Ok,
        old(state).has_instance(instance_id@) ==> *final(state) == *old(state),
        !old(state).has_instance(instance_id@) ==> {
            &&& final(state).instances@.len() == old(state).instances@.len() + 1
            &&& final(state).instances@.take(old(state).instances@.len() as int) == old(
                state,
            ).instances@
            &&& final(state).instances@.last().0@ == instance_id@
            &&& final(state).instances@.last().1.is_empty_record()
            &&& final(state).lib_dir == old(state).lib_dir
            &&& final(state).resource_dir == old(state).resource_dir
            &&& final(state).cached_adb_devices == old(state).cached_adb_devices
            &&& final(state).cached_win32_windows == old(state).cached_win32_windows
        },
{
    match state.find(&instance_id) {
        Some(_) => Ok(()),
        None => {
            let ghost pre = *state;
            state.instances.push((instance_id, InstanceRuntime::new()));
            proof {
                assert(state.instances@.take(pre.instances@.len() as int) =~= pre.instances@);
                assert forall|i: int, j: int|
                    0 <= i < j < state.ids().len() implies state.ids()[i] != state.ids()[j] by {
                    if j < pre.ids().len() {
                        assert(pre.ids()[i] == state.ids()[i]);
                        assert(pre.ids()[j] == state.ids()[j]);
                    } else {
                        assert(state.ids()[j] == instance_id@);
                        assert(pre.ids()[i] == state.ids()[i]);
                        assert(!pre.has_instance(instance_id@));
                    }
                }
            }
            Ok(())
        },
    }
}

/// Removes an instance and hands back everything it held, as a teardown
/// plan in release order. A missing id is not an error: there is nothing
/// left to tear down.
pub fn maa_destroy_instance(state: &mut MaaState, instance_id: &String) -> (r: Result<
    Option<TeardownPlan>,
    MaaError,
>)
    requires
        old(state).wf(),
    ensures
        final(state).wf(),
        !old(state).has_instance(instance_id@) ==> (r matches Ok(None) && *final(state) == *old(
            state,
        )),
        old(state).has_instance(instance_id@) ==> {
            let i = old(state).index_of(instance_id@);
            let rec = old(state).record_of(instance_id@);
            &&& r matches Ok(Some(plan)) && {
                &&& plan.agent_clients@ == rec.agent_clients@
                &&& plan.agent_children@ == rec.agent_children@
                &&& plan.tasker == rec.tasker
                &&& plan.controller == rec.controller
                &&& plan.resource == rec.resource
            }
            &&& final(state).instances@ == old(state).instances@.subrange(0, i) + old(
                state,
            ).instances@.skip(i + 1)
            &&& !final(state).has_instance(instance_id@)
            &&& final(state).lib_dir == old(state).lib_dir
            &&& final(state).resource_dir == old(state).resource_dir
            &&& final(state).cached_adb_devices == old(state).cached_adb_devices
            &&& final(state).cached_win32_windows == old(state).cached_win32_windows
        },
{
    let ghost pre = *state;
    match state.find(instance_id) {
        None => Ok(None),
        Some(i) => {
            let (_, rec) = state.instances.remove(i);
            let plan = TeardownPlan {
                agent_clients: rec.agent_clients,
                agent_children: rec.agent_children,
                tasker: rec.tasker,
                controller: rec.controller,
                resource: rec.resource,
            };
            proof {
                assert(state.instances@ =~= pre.instances@.subrange(0, i as int)
                    + pre.instances@.skip(i + 1));
                assert forall|a: int, b: int|
                    0 <= a < b < state.ids().len() implies state.ids()[a] != state.ids()[b] by {
                    let a0 = if a < i as int { a } else { a + 1 };
                    let b0 = if b < i as int { b } else { b + 1 };
                    assert(state.ids()[a] == pre.ids()[a0]);
                    assert(state.ids()[b] == pre.ids()[b0]);
                }
                assert forall|a: int|
                    0 <= a < state.instances@.len() implies (
                #[trigger] state.instances@[a].1).wf() by {
                    let a0 = if a < i as int { a } else { a + 1 };
                    assert(state.instances@[a].1 == pre.instances@[a0].1);
                }
                if state.has_instance(instance_id@) {
                    let w = choose|w: int|
                        0 <= w < state.ids().len() && state.ids()[w] == instance_id@;
                    let w0 = if w < i as int { w } else { w + 1 };
                    assert(pre.ids()[w0] == instance_id@);
                    assert(pre.ids()[i as int] == instance_id@);
                }
            }
            Ok(Some(plan))
        },
    }
}

/// The helper clients of every instance, in registry order.
pub open spec fn all_agent_clients(insts: Seq<(String, InstanceRuntime)>) -> Seq<u64>
    decreases insts.len(),
{
    if insts.len() == 0 {
        Seq::<u64>::empty()
    } else {
        all_agent_clients(insts.drop_last()) + insts.last().1.agent_clients@
    }
}

/// The helper children of every instance, in registry order.
pub open spec fn all_agent_children(insts: Seq<(String, InstanceRuntime)>) -> Seq<u64>
    decreases insts.len(),
{
    if insts.len() == 0 {
        Seq::<u64>::empty()
    } else {
        all_agent_children(insts.drop_last()) + insts.last().1.agent_children@
    }
}

impl MaaState {
    /// Drains the helper lists of every instance at once, for process-wide
    /// shutdown; the caller kills and waits on each returned child so no
    /// process is left unreaped.
    pub fn cleanup_all_agent_children(&mut self) -> (r: (Vec<u64>, Vec<u64>))
        requires
            old(self).wf(),
        ensures
            final(self).wf(),
            r.0@ == all_agent_clients(old(self).instances@),
            r.1@ == all_agent_children(old(self).instances@),
            final(self).instances@.len() == old(self).instances@.len(),
            forall|i: int|
                0 <= i < final(self).instances@.len() ==> {
                    let e = #[trigger] final(self).instances@[i];
                    let o = old(self).instances@[i];
                    &&& e.0 == o.0
                    &&& e.1.agent_clients@ =~= Seq::<u64>::empty()
                    &&& e.1.agent_children@ =~= Seq::<u64>::empty()
                    &&& e.1.resource == o.1.resource
                    &&& e.1.controller == o.1.controller
                    &&& e.1.tasker == o.1.tasker
                    &&& e.1.task_ids == o.1.task_ids
                    &&& e.1.stop_in_progress == o.1.stop_in_progress
                    &&& e.1.stop_started_at_ms == o.1.stop_started_at_ms
                },
            final(self).lib_dir == old(self).lib_dir,
            final(self).resource_dir == old(self).resource_dir,
            final(self).cached_adb_devices == old(self).cached_adb_devices,
            final(self).cached_win32_windows == old(self).cached_win32_windows,
    {
        let ghost pre = *self;
        let mut clients: Vec<u64> = Vec::new();
        let mut children: Vec<u64> = Vec::new();
        let n = self.instances.len();
        let mut i: usize = 0;
        while i < n
            invariant
                0 <= i <= n,
                n == self.instances@.len(),
                n == pre.instances@.len(),
                clients@ == all_agent_clients(pre.instances@.take(i as int)),
                children@ == all_agent_children(pre.instances@.take(i as int)),
                forall|j: int|
                    i <= j < n ==> #[trigger] self.instances@[j] == pre.instances@[j],
                forall|j: int|
                    0 <= j < i ==> {
                        let e = #[trigger] self.instances@[j];
                        let o = pre.instances@[j];
                        &&& e.0 == o.0
                        &&& e.1.agent_clients@ =~= Seq::<u64>::empty()
                        &&& e.1.agent_children@ =~= Seq::<u64>::empty()
                        &&& e.1.resource == o.1.resource
                        &&& e.1.controller == o.1.controller
                        &&& e.1.tasker == o.1.tasker
                        &&& e.1.task_ids == o.1.task_ids
                        &&& e.1.stop_in_progress == o.1.stop_in_progress
                        &&& e.1.stop_started_at_ms == o.1.stop_started_at_ms
                    },
                self.lib_dir == pre.lib_dir,
                self.resource_dir == pre.resource_dir,
                self.cached_adb_devices == pre.cached_adb_devices,
                self.cached_win32_windows == pre.cached_win32_windows,
            decreases n - i,
        {
            let entry = &mut self.instances[i];
            let mut cs: Vec<u64> = Vec::new();
            let mut hs: Vec<u64> = Vec::new();
            core::mem::swap(&mut entry.1.agent_clients, &mut cs);
            core::mem::swap(&mut entry.1.agent_children, &mut hs);
            append_all(&mut clients, &cs);
            append_all(&mut children, &hs);
            proof {
                assert(pre.instances@.take(i + 1).drop_last() =~= pre.instances@.take(i as int));
                assert(pre.instances@.take(i + 1).last() == pre.instances@[i as int]);
            }
            i = i + 1;
        }
        proof {
            assert(pre.instances@.take(n as int) =~= pre.instances@);
            assert forall|a: int, b: int|
                0 <= a < b < self.ids().len() implies self.ids()[a] != self.ids()[b] by {
                assert(self.instances@[a].0 == pre.instances@[a].0);
                assert(self.instances@[b].0 == pre.instances@[b].0);
                assert(pre.ids()[a] != pre.ids()[b]);
            }
        }
        (clients, children)
    }
}

/// Appends every element of the second vector to the first.
pub(crate) fn append_all(dst: &mut Vec<u64>, src: &Vec<u64>)
    ensures
        final(dst)@ == old(dst)@ + src@,
{
    let mut i: usize = 0;
    while i < src.len()
        invariant
            0 <= i <= src@.len(),
            dst@ == old(dst)@ + src@.take(i as int),
        decreases src@.len() - i,
    {
        dst.push(src[i]);
        proof {
            assert(old(dst)@ + src@.take(i + 1) =~= (old(dst)@ + src@.take(i as int)).push(
                src@[i as int],
            ));
        }
        i = i + 1;
    }
    proof {
        assert(src@.take(src@.len() as int) =~= src@);
    }
}

} // verus!
