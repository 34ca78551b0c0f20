//! Task submission and the stop throttler: which posted ids are kept,
//! how engine status codes map to task states, and when a stop request
//! actually reaches the engine.

use vstd::prelude::*;
use crate::STOP_THROTTLE_MS;
use crate::INVALID_TASK_ID;
use crate::errors::MaaError;
use crate::ops::{same_agents, same_except, same_handles, lemma_wf_update};
use crate::registry::MaaState;
use crate::types::TaskStatus;

verus! {

/// Engine status code: the task is queued.
pub const MAA_STATUS_PENDING: i32 = 1000;

/// Engine status code: the task is executing.
pub const MAA_STATUS_RUNNING: i32 = 2000;

/// Engine status code: the task finished successfully.
pub const MAA_STATUS_SUCCEEDED: i32 = 3000;

/// Maps an engine status code onto a task state; anything unknown counts
/// as failed.
pub fn task_status_of(code: i32) -> (r: TaskStatus)
    ensures
        code == MAA_STATUS_PENDING ==> r is Pending,
        code == MAA_STATUS_RUNNING ==> r is Running,
        code == MAA_STATUS_SUCCEEDED ==> r is Succeeded,
        code != MAA_STATUS_PENDING && code != MAA_STATUS_RUNNING && code != MAA_STATUS_SUCCEEDED
            ==> r is Failed,
{
    if code == MAA_STATUS_PENDING {
        TaskStatus::Pending
    } else if code == MAA_STATUS_RUNNING {
        TaskStatus::Running
    } else if code == MAA_STATUS_SUCCEEDED {
        TaskStatus::Succeeded
    } else {
        TaskStatus::Failed
    }
}

/// Whether a posted id is a real task id rather than the rejection
/// sentinel.
pub open spec fn posted_ok(id: i64) -> bool {
    id != INVALID_TASK_ID
}

/// The accepted ids of a batch, in submission order.
pub open spec fn keep_posted(s: Seq<i64>) -> Seq<i64> {
    s.filter(|id: i64| posted_ok(id))
}

proof fn lemma_keep_posted_push(s: Seq<i64>, x: i64)
    ensures
        posted_ok(x) ==> keep_posted(s.push(x)) == keep_posted(s).push(x),
        !posted_ok(x) ==> keep_posted(s.push(x)) == keep_posted(s),
{
    reveal(Seq::filter);
    assert(s.push(x).drop_last() =~= s);
    assert(s.push(x).last() == x);
}

/// Keeps the ids of the posts the engine accepted, in submission order; a
/// rejected post is skipped, never aborting the batch.
pub fn collect_task_ids(results: &Vec<i64>) -> (r: Vec<i64>)
    ensures
        r@ == keep_posted(results@),
{
    let mut out: Vec<i64> = Vec::new();
    let mut i: usize = 0;
    while i < results.len()
        invariant
            0 <= i <= results@.len(),
            out@ == keep_posted(results@.take(i as int)),
        decreases results@.len() - i,
    {
        let id = results[i];
        proof {
            assert(results@.take(i + 1) =~= results@.take(i as int).push(results@[i as int]));
            lemma_keep_posted_push(results@.take(i as int), results@[i as int]);
        }
        if id != INVALID_TASK_ID {
            out.push(id);
        }
        i = i + 1;
    }
    proof {
        assert(results@.take(results@.len() as int) =~= results@);
    }
    out
}

/// Confirms that a tasker reported itself initialized before submission
/// proceeds.
pub fn check_tasker_inited(inited: bool) -> (r: Result<(), MaaError>)
    ensures
        inited ==> r is Ok,
        !inited ==> (r matches Err(e) && e is NotInitialized),
{
    if inited {
        Ok(())
    } else {
        Err(MaaError::NotInitialized)
    }
}

/// Milliseconds since a stop was requested; zero when no request time is
/// on record or the clock reads earlier than the request.
pub open spec fn stop_elapsed(started: Option<u64>, now: u64) -> u64 {
    match started {
        Some(t0) => if now >= t0 {
            (now - t0) as u64
        } else {
            0
        },
        None => 0,
    }
}

/// The stop throttler's decision: `(issue, in_progress', started_at')`.
/// A stop already in progress is cleared without a command once nothing
/// runs, suppressed inside the throttle window, and re-issued after it;
/// otherwise the stop is genuine and goes to the engine.
pub open spec fn spec_stop_decision(
    in_progress: bool,
    started: Option<u64>,
    running: bool,
    now: u64,
) -> (bool, bool, Option<u64>) {
    if in_progress && !running {
        (false, false, None)
    } else if in_progress && stop_elapsed(started, now) < STOP_THROTTLE_MS {
        (false, true, started)
    } else {
        (true, true, Some(now))
    }
}

/// Applies the stop throttler to an instance. Returns the tasker handle
/// to post the engine's stop command on when the stop is genuine, and
/// `None` when the call is a silent success; a genuine stop also clears
/// the cached task ids.
pub fn maa_stop_task(state: &mut MaaState, instance_id: &String, running: bool, now_ms: u64) -> (r:
    Result<Option<u64>, MaaError>)
    requires
        old(state).wf(),
    ensures
        final(state).wf(),
        !old(state).has_instance(instance_id@) ==> (r matches Err(e) && e is NotFound && *final(state) == *old(state)),
        old(state).has_instance(instance_id@) && old(state).record_of(
            instance_id@,
        ).tasker is None ==> (r matches Err(e) && e is NotInitialized && *final(state) == *old(state)),
        old(state).has_instance(instance_id@) && old(state).record_of(
            instance_id@,
        ).tasker is Some ==> {
            let i = old(state).index_of(instance_id@);
            let orec = old(state).record_of(instance_id@);
            let nrec = final(state).instances@[i].1;
            let d = spec_stop_decision(
                orec.stop_in_progress,
                orec.stop_started_at_ms,
                running,
                now_ms,
            );
            &&& r matches Ok(cmd) && cmd == (if d.0 {
                orec.tasker
            } else {
                None
            })
            &&& same_except(*old(state), *final(state), i)
            &&& same_handles(orec, nrec)
            &&& same_agents(orec, nrec)
            &&& nrec.stop_in_progress == d.1
            &&& nrec.stop_started_at_ms == d.2
            &&& nrec.task_ids@ == (if d.0 {
                Seq::<i64>::empty()
            } else {
                orec.task_ids@
            })
        },
{
    let ghost pre = *state;
    match state.find(instance_id) {
        None => Err(MaaError::NotFound),
        Some(i) => {
            let tasker = match state.instances[i].1.tasker {
                Some(t) => t,
                None => { return Err(MaaError::NotInitialized); },
            };
            let entry = &mut state.instances[i];
            if entry.1.stop_in_progress {
                if !running {
                    entry.1.stop_in_progress = false;
                    entry.1.stop_started_at_ms = None;
                    proof {
                        lemma_wf_update(pre, *state, i as int);
                    }
                    return Ok(None);
                }
                let elapsed: u64 = match entry.1.stop_started_at_ms {
                    Some(t0) => if now_ms >= t0 {
                        now_ms - t0
                    } else {
                        0
                    },
                    None => 0,
                };
                if elapsed < STOP_THROTTLE_MS {
                    proof {
                        lemma_wf_update(pre, *state, i as int);
                    }
                    return Ok(None);
                }
            }
            entry.1.stop_in_progress = true;
            entry.1.stop_started_at_ms = Some(now_ms);
            entry.1.task_ids = Vec::new();
            proof {
                lemma_wf_update(pre, *state, i as int);
            }
            Ok(Some(tasker))
        },
    }
}

/// Law: while tasks keep running, a second stop request within the
/// throttle window of the first issues no second engine command — the
/// two calls together issue exactly one.
pub proof fn lemma_stop_twice_within_throttle(started0: Option<u64>, t0: u64, t1: u64)
    requires
        t0 <= t1 < t0 + STOP_THROTTLE_MS,
    ensures
        ({
            let d1 = spec_stop_decision(false, started0, true, t0);
            let d2 = spec_stop_decision(d1.1, d1.2, true, t1);
            d1.0 && !d2.0 && d2.1 && d2.2 == Some(t0)
        }),
{
}

/// Law: a stop request finding nothing running while a stop is pending
/// succeeds without a command and leaves the in-progress flag cleared.
pub proof fn lemma_stop_idle_clears_flag(started0: Option<u64>, now: u64)
    ensures
        ({
            let d = spec_stop_decision(true, started0, false, now);
            !d.0 && !d.1 && d.2 is None
        }),
{
}

} // verus!
