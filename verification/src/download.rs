//! The download session manager: a process-wide monotonic session
//! counter with a cancel flag, and the per-session chunk loop. The caller
//! performs the network reads and file writes; these functions decide
//! what each chunk means — buffering, flushing, cancellation, progress.

use vstd::prelude::*;
use crate::FLUSH_THRESHOLD;
use crate::PROGRESS_INTERVAL_MS;
use crate::types::DownloadProgressEvent;

verus! {

/// The process-wide download state: the current session id and the
/// cooperative cancel flag. A single writer at a time mutates it.
pub struct DownloadManager {
    pub current_session: u64,
    pub cancelled: bool,
}

impl DownloadManager {
    /// A manager with no session yet.
    pub fn new() -> (r: DownloadManager)
        ensures
            r.current_session == 0,
            !r.cancelled,
    {
        DownloadManager { current_session: 0, cancelled: false }
    }

    /// Starts a new session: the counter grows strictly, invalidating
    /// every older session, and the cancel flag is reset.
    pub fn begin_session(&mut self) -> (sid: u64)
        requires
            old(self).current_session < u64::MAX,
        ensures
            final(self).current_session == old(self).current_session + 1,
            !final(self).cancelled,
            sid == final(self).current_session,
    {
        self.current_session = self.current_session + 1;
        self.cancelled = false;
        self.current_session
    }

    /// Requests cancellation of whatever session is in flight; the loop
    /// observes it at its next chunk boundary.
    pub fn cancel(&mut self)
        ensures
            final(self).cancelled,
            final(self).current_session == old(self).current_session,
    {
        self.cancelled = true;
    }
}

/// The running state of one session's chunk loop.
#[derive(Clone, Copy, Debug, PartialEq, Eq, Structural)]
pub struct SessionLoop {
    pub session_id: u64,
    /// Total bytes expected; zero while unknown.
    pub total: u64,
    pub downloaded: u64,
    /// Bytes accumulated in memory since the last disk flush.
    pub buffered: u64,
    /// Wall clock of the last progress event (or of the session start).
    pub last_emit_ms: u64,
    /// `downloaded` as of the last progress event.
    pub last_emit_downloaded: u64,
}

impl SessionLoop {
    /// The loop's invariant between chunks.
    pub open spec fn wf(self) -> bool {
        &&& self.buffered < FLUSH_THRESHOLD
        &&& self.buffered <= self.downloaded
        &&& self.last_emit_downloaded <= self.downloaded
    }

    /// Sets up a session's loop: the expected total comes from the
    /// caller's hint, else from the response's declared length, else
    /// stays unknown.
    pub fn begin(
        session_id: u64,
        total_size_hint: Option<u64>,
        content_length: Option<u64>,
        now_ms: u64,
    ) -> (r: SessionLoop)
        ensures
            r.session_id == session_id,
            r.total == match total_size_hint {
                Some(t) => t,
                None => match content_length {
                    Some(c) => c,
                    None => 0,
                },
            },
            r.downloaded == 0,
            r.buffered == 0,
            r.last_emit_ms == now_ms,
            r.last_emit_downloaded == 0,
            r.wf(),
    {
        let total: u64 = match total_size_hint {
            Some(t) => t,
            None => match content_length {
                Some(c) => c,
                None => 0,
            },
        };
        SessionLoop {
            session_id,
            total,
            downloaded: 0,
            buffered: 0,
            last_emit_ms: now_ms,
            last_emit_downloaded: 0,
        }
    }
}

/// Progress in hundredths of a percent; zero while the total is unknown,
/// and capped at 100% against an understated total.
pub open spec fn spec_progress_centi(downloaded: int, total: int) -> int {
    if total > 0 {
        if downloaded >= total {
            10000
        } else {
            downloaded * 10000 / total
        }
    } else {
        0
    }
}

/// Bytes per second over an interval, from bytes moved and milliseconds
/// elapsed, saturating at the largest representable rate.
pub open spec fn spec_speed(bytes: int, elapsed_ms: int) -> int
    recommends
        elapsed_ms > 0,
{
    if bytes * 1000 / elapsed_ms > u64::MAX {
        u64::MAX as int
    } else {
        bytes * 1000 / elapsed_ms
    }
}

/// What one chunk leads to.
pub enum ChunkOutcome {
    /// The session was cancelled or superseded: the caller deletes the
    /// temp file and fails with `Cancelled`.
    Cancelled,
    /// The chunk counts: flush the buffer to disk if asked, then emit the
    /// progress event if one is due.
    Continue { flush: bool, progress: Option<DownloadProgressEvent> },
}

/// The chunk transition: `(next loop state, outcome)`.
pub open spec fn spec_chunk(
    l: SessionLoop,
    cancelled: bool,
    current_session: u64,
    len: u64,
    now_ms: u64,
) -> (SessionLoop, ChunkOutcome) {
    if cancelled || current_session != l.session_id {
        (l, ChunkOutcome::Cancelled)
    } else {
        let downloaded = (l.downloaded + len) as u64;
        let flush = l.buffered + len >= FLUSH_THRESHOLD;
        let buffered = if flush {
            0u64
        } else {
            (l.buffered + len) as u64
        };
        let due = now_ms - l.last_emit_ms >= PROGRESS_INTERVAL_MS;
        if due {
            let event = DownloadProgressEvent {
                session_id: l.session_id,
                downloaded_size: downloaded,
                total_size: l.total,
                speed: spec_speed(
                    downloaded - l.last_emit_downloaded,
                    now_ms - l.last_emit_ms,
                ) as u64,
                progress_centi: spec_progress_centi(downloaded as int, l.total as int) as u64,
            };
            (
                SessionLoop {
                    downloaded,
                    buffered,
                    last_emit_ms: now_ms,
                    last_emit_downloaded: downloaded,
                    ..l
                },
                ChunkOutcome::Continue { flush, progress: Some(event) },
            )
        } else {
            (
                SessionLoop { downloaded, buffered, ..l },
                ChunkOutcome::Continue { flush, progress: None },
            )
        }
    }
}

/// Processes one received chunk: checks cancellation and session match
/// first, accounts the bytes, decides whether the buffer reaches the
/// flush threshold, and emits at most one progress event per interval.
pub fn on_chunk(l: &mut SessionLoop, mgr: &DownloadManager, len: u64, now_ms: u64) -> (r:
    ChunkOutcome)
    requires
        old(l).wf(),
        now_ms >= old(l).last_emit_ms,
        old(l).downloaded + len <= u64::MAX,
    ensures
        (*final(l), r) == spec_chunk(*old(l), mgr.cancelled, mgr.current_session, len, now_ms),
        final(l).wf(),
        final(l).session_id == old(l).session_id,
        final(l).total == old(l).total,
        r is Continue ==> final(l).downloaded == old(l).downloaded + len,
        r matches ChunkOutcome::Continue { progress: Some(e), .. } ==> {
            &&& e.downloaded_size == old(l).downloaded + len
            &&& e.downloaded_size >= old(l).last_emit_downloaded
            &&& now_ms >= old(l).last_emit_ms + PROGRESS_INTERVAL_MS
            &&& final(l).last_emit_ms == now_ms
            &&& final(l).last_emit_downloaded == e.downloaded_size
        },
{
    if mgr.cancelled || mgr.current_session != l.session_id {
        return ChunkOutcome::Cancelled;
    }
    let downloaded = l.downloaded + len;
    let flush = l.buffered + len >= FLUSH_THRESHOLD;
    let buffered: u64 = if flush {
        0
    } else {
        l.buffered + len
    };
    let elapsed = now_ms - l.last_emit_ms;
    let due = elapsed >= PROGRESS_INTERVAL_MS;
    let progress: Option<DownloadProgressEvent> = if due {
        let bytes = downloaded - l.last_emit_downloaded;
        let speed = speed_u64(bytes, elapsed);
        let centi = progress_centi_u64(downloaded, l.total);
        Some(
            DownloadProgressEvent {
                session_id: l.session_id,
                downloaded_size: downloaded,
                total_size: l.total,
                speed,
                progress_centi: centi,
            },
        )
    } else {
        None
    };
    l.downloaded = downloaded;
    l.buffered = buffered;
    if due {
        l.last_emit_ms = now_ms;
        l.last_emit_downloaded = downloaded;
    }
    ChunkOutcome::Continue { flush, progress }
}

/// Computes a byte rate without overflow, saturating at `u64::MAX`.
fn speed_u64(bytes: u64, elapsed_ms: u64) -> (r: u64)
    requires
        elapsed_ms > 0,
    ensures
        r == spec_speed(bytes as int, elapsed_ms as int),
{
    let wide: u128 = (bytes as u128) * 1000 / (elapsed_ms as u128);
    proof {
        assert(wide == (bytes as int) * 1000 / (elapsed_ms as int));
    }
    if wide > u64::MAX as u128 {
        u64::MAX
    } else {
        wide as u64
    }
}

/// Computes progress in hundredths of a percent without overflow.
fn progress_centi_u64(downloaded: u64, total: u64) -> (r: u64)
    ensures
        r == spec_progress_centi(downloaded as int, total as int),
{
    if total == 0 {
        0
    } else if downloaded >= total {
        10000
    } else {
        let wide: u128 = (downloaded as u128) * 10000 / (total as u128);
        proof {
            assert((downloaded as int) * 10000 / (total as int) < 10000) by (nonlinear_arith)
                requires
                    0 < total,
                    0 <= downloaded < total,
            ;
            assert(wide == spec_progress_centi(downloaded as int, total as int));
        }
        wide as u64
    }
}

/// What the end of the stream leads to.
pub enum FinishOutcome {
    /// Cancelled or superseded right before finalization: the caller
    /// deletes the temp file and fails with `Cancelled`.
    Cancelled,
    /// Finish up: flush the remaining buffer if any, sync the file, emit
    /// the final event, move a pre-existing destination aside, and rename
    /// the temp file into place.
    Complete { flush_remaining: bool, event: DownloadProgressEvent },
}

/// Decides how the session ends once the stream is exhausted:
/// cancellation is checked one last time, and a successful session
/// reports exactly 100% with the true byte count as the total when none
/// was known.
pub fn finish(l: &SessionLoop, mgr: &DownloadManager) -> (r: FinishOutcome)
    ensures
        (mgr.cancelled || mgr.current_session != l.session_id) ==> r is Cancelled,
        !(mgr.cancelled || mgr.current_session != l.session_id) ==> (r
            matches FinishOutcome::Complete { flush_remaining, event } && {
            &&& flush_remaining == (l.buffered > 0)
            &&& event.session_id == l.session_id
            &&& event.downloaded_size == l.downloaded
            &&& event.total_size == (if l.total > 0 {
                l.total
            } else {
                l.downloaded
            })
            &&& event.speed == 0
            &&& event.progress_centi == 10000
        }),
{
    if mgr.cancelled || mgr.current_session != l.session_id {
        return FinishOutcome::Cancelled;
    }
    let total: u64 = if l.total > 0 {
        l.total
    } else {
        l.downloaded
    };
    FinishOutcome::Complete {
        flush_remaining: l.buffered > 0,
        event: DownloadProgressEvent {
            session_id: l.session_id,
            downloaded_size: l.downloaded,
            total_size: total,
            speed: 0,
            progress_centi: 10000,
        },
    }
}

/// Law: starting session `k + 1` invalidates any in-flight session `k`:
/// its loop observes the mismatch at its very next chunk boundary and is
/// told to delete its temp file, while a loop of the new session, not yet
/// cancelled, proceeds normally.
pub proof fn lemma_new_session_invalidates_old(
    mgr: DownloadManager,
    stale: SessionLoop,
    fresh: SessionLoop,
    len: u64,
    now_ms: u64,
)
    requires
        stale.session_id < mgr.current_session,
        fresh.session_id == mgr.current_session,
        !mgr.cancelled,
    ensures
        spec_chunk(stale, mgr.cancelled, mgr.current_session, len, now_ms).1 is Cancelled,
        spec_chunk(stale, mgr.cancelled, mgr.current_session, len, now_ms).0 == stale,
        spec_chunk(fresh, mgr.cancelled, mgr.current_session, len, now_ms).1 is Continue,
{
}

/// The progress event a chunk outcome carries, if any.
pub open spec fn emitted(r: ChunkOutcome) -> Option<DownloadProgressEvent> {
    match r {
        ChunkOutcome::Cancelled => None,
        ChunkOutcome::Continue { progress, .. } => progress,
    }
}

/// The loop state after a session consumes a trace of chunks, each
/// entry being `(bytes received, wall clock)`, with no cancellation.
pub open spec fn run_state(l: SessionLoop, chunks: Seq<(u64, u64)>) -> SessionLoop
    decreases chunks.len(),
{
    if chunks.len() == 0 {
        l
    } else {
        spec_chunk(
            run_state(l, chunks.drop_last()),
            false,
            l.session_id,
            chunks.last().0,
            chunks.last().1,
        ).0
    }
}

/// Whether a trace is one the loop can actually see: the clock never
/// runs backwards past the last emission and the byte count stays
/// representable.
pub open spec fn trace_ok(l: SessionLoop, chunks: Seq<(u64, u64)>) -> bool
    decreases chunks.len(),
{
    if chunks.len() == 0 {
        true
    } else {
        let st = run_state(l, chunks.drop_last());
        &&& trace_ok(l, chunks.drop_last())
        &&& chunks.last().1 >= st.last_emit_ms
        &&& st.downloaded + chunks.last().0 <= u64::MAX
    }
}

/// The progress events a session emits over a trace, each with the wall
/// clock it was emitted at.
pub open spec fn run_events(l: SessionLoop, chunks: Seq<(u64, u64)>) -> Seq<
    (DownloadProgressEvent, u64),
>
    decreases chunks.len(),
{
    if chunks.len() == 0 {
        Seq::<(DownloadProgressEvent, u64)>::empty()
    } else {
        let st = run_state(l, chunks.drop_last());
        let stepped = spec_chunk(st, false, l.session_id, chunks.last().0, chunks.last().1);
        run_events(l, chunks.drop_last()) + (match emitted(stepped.1) {
            Some(e) => seq![(e, chunks.last().1)],
            None => Seq::<(DownloadProgressEvent, u64)>::empty(),
        })
    }
}

proof fn lemma_run_invariant(l: SessionLoop, chunks: Seq<(u64, u64)>)
    requires
        l.wf(),
        trace_ok(l, chunks),
    ensures
        ({
            let st = run_state(l, chunks);
            let evs = run_events(l, chunks);
            &&& st.wf()
            &&& st.session_id == l.session_id
            &&& st.downloaded >= l.downloaded
            &&& st.last_emit_ms >= l.last_emit_ms
            &&& (evs.len() == 0 ==> st.last_emit_ms == l.last_emit_ms)
            &&& (evs.len() > 0 ==> {
                &&& st.last_emit_ms == evs.last().1
                &&& st.downloaded >= evs.last().0.downloaded_size
            })
            &&& forall|i: int|
                0 <= i && i + 1 < evs.len() ==> (#[trigger] evs[i + 1]).1 >= evs[i].1
                    + PROGRESS_INTERVAL_MS && evs[i + 1].0.downloaded_size
                    >= evs[i].0.downloaded_size
        }),
    decreases chunks.len(),
{
    if chunks.len() > 0 {
        lemma_run_invariant(l, chunks.drop_last());
        let st = run_state(l, chunks.drop_last());
        let prev = run_events(l, chunks.drop_last());
        let stepped = spec_chunk(st, false, l.session_id, chunks.last().0, chunks.last().1);
        let evs = run_events(l, chunks);
        match emitted(stepped.1) {
            Some(e) => {
                assert(evs =~= prev.push((e, chunks.last().1)));
                assert forall|i: int|
                    0 <= i && i + 1 < evs.len() implies (#[trigger] evs[i + 1]).1 >= evs[i].1
                        + PROGRESS_INTERVAL_MS && evs[i + 1].0.downloaded_size
                        >= evs[i].0.downloaded_size by {
                    if i + 1 < prev.len() {
                        assert(evs[i] == prev[i]);
                        assert(evs[i + 1] == prev[i + 1]);
                    } else {
                        assert(evs[i] == prev.last());
                        assert(evs[i + 1] == (e, chunks.last().1));
                    }
                }
            },
            None => {
                assert(evs =~= prev);
            },
        }
    }
}

/// Law: within one download session, over any trace the loop can see,
/// the reported `downloaded_size` never decreases from one progress
/// event to the next, and consecutive events lie at least the progress
/// interval apart on the wall clock.
pub proof fn lemma_progress_events_ordered(l: SessionLoop, chunks: Seq<(u64, u64)>)
    requires
        l.wf(),
        trace_ok(l, chunks),
    ensures
        ({
            let evs = run_events(l, chunks);
            forall|i: int|
                0 <= i && i + 1 < evs.len() ==> (#[trigger] evs[i + 1]).1 >= evs[i].1
                    + PROGRESS_INTERVAL_MS && evs[i + 1].0.downloaded_size
                    >= evs[i].0.downloaded_size
        }),
{
    lemma_run_invariant(l, chunks);
}

} // verus!
