use mxu_core::download::{
    finish, on_chunk, ChunkOutcome, DownloadManager, FinishOutcome, SessionLoop,
};
use mxu_core::errors::MaaError;
use mxu_core::paths::temp_download_path;
use mxu_core::FLUSH_THRESHOLD;

#[test]
fn session_ids_grow_and_reset_cancel() {
    let mut mgr = DownloadManager::new();
    let s1 = mgr.begin_session();
    let s2 = mgr.begin_session();
    assert_eq!(s1, 1);
    assert_eq!(s2, 2);
    assert!(s1 < s2);
    mgr.cancel();
    assert!(mgr.cancelled);
    let s3 = mgr.begin_session();
    assert_eq!(s3, 3);
    assert!(!mgr.cancelled);
}

#[test]
fn buffer_flushes_at_threshold() {
    let mut mgr = DownloadManager::new();
    let sid = mgr.begin_session();
    let mut l = SessionLoop::begin(sid, None, Some(600_000), 0);
    assert_eq!(l.total, 600_000);

    match on_chunk(&mut l, &mgr, 1000, 10) {
        ChunkOutcome::Continue { flush, progress } => {
            assert!(!flush);
            assert!(progress.is_none());
        }
        _ => panic!("unexpected cancel"),
    }
    assert_eq!(l.buffered, 1000);

    // The chunk that reaches the threshold flushes and empties the buffer.
    match on_chunk(&mut l, &mgr, FLUSH_THRESHOLD - 1000, 20) {
        ChunkOutcome::Continue { flush, .. } => assert!(flush),
        _ => panic!("unexpected cancel"),
    }
    assert_eq!(l.buffered, 0);
    assert_eq!(l.downloaded, FLUSH_THRESHOLD);
}

#[test]
fn progress_events_respect_interval_and_grow() {
    let mut mgr = DownloadManager::new();
    let sid = mgr.begin_session();
    let mut l = SessionLoop::begin(sid, Some(1000), None, 0);

    // Only 50 ms in: no event yet.
    match on_chunk(&mut l, &mgr, 100, 50) {
        ChunkOutcome::Continue { progress, .. } => assert!(progress.is_none()),
        _ => panic!("unexpected cancel"),
    }

    // 150 ms in: one event, measuring the whole interval so far.
    let first = match on_chunk(&mut l, &mgr, 300, 150) {
        ChunkOutcome::Continue { progress: Some(e), .. } => e,
        _ => panic!("expected an event"),
    };
    assert_eq!(first.session_id, sid);
    assert_eq!(first.downloaded_size, 400);
    assert_eq!(first.total_size, 1000);
    // 400 bytes over 150 ms.
    assert_eq!(first.speed, 400 * 1000 / 150);
    // 40.00 percent.
    assert_eq!(first.progress_centi, 4000);

    // 50 ms after the last event: suppressed.
    match on_chunk(&mut l, &mgr, 100, 200) {
        ChunkOutcome::Continue { progress, .. } => assert!(progress.is_none()),
        _ => panic!("unexpected cancel"),
    }

    // 110 ms after the last event: emitted again, byte count not lower.
    let second = match on_chunk(&mut l, &mgr, 100, 260) {
        ChunkOutcome::Continue { progress: Some(e), .. } => e,
        _ => panic!("expected an event"),
    };
    assert!(second.downloaded_size >= first.downloaded_size);
    assert_eq!(second.downloaded_size, 600);
    // The two emissions lie at least 100 ms apart.
    assert!(260 - 150 >= 100);
}

#[test]
fn new_session_invalidates_old_loop() {
    let mut mgr = DownloadManager::new();
    let s1 = mgr.begin_session();
    let mut old_loop = SessionLoop::begin(s1, None, None, 0);
    match on_chunk(&mut old_loop, &mgr, 10, 1) {
        ChunkOutcome::Continue { .. } => {}
        _ => panic!("session still valid"),
    }

    // Session 2 starts while session 1 is in flight.
    let s2 = mgr.begin_session();
    let mut new_loop = SessionLoop::begin(s2, None, None, 2);

    // Session 1 observes the mismatch at its next chunk boundary.
    assert!(matches!(on_chunk(&mut old_loop, &mgr, 10, 3), ChunkOutcome::Cancelled));
    assert!(matches!(finish(&old_loop, &mgr), FinishOutcome::Cancelled));

    // Session 2 proceeds to completion independently.
    assert!(matches!(on_chunk(&mut new_loop, &mgr, 10, 4), ChunkOutcome::Continue { .. }));
    match finish(&new_loop, &mgr) {
        FinishOutcome::Complete { event, .. } => {
            assert_eq!(event.session_id, s2);
            assert_eq!(event.progress_centi, 10000);
        }
        _ => panic!("new session should complete"),
    }
}

#[test]
fn cancel_after_partial_download_aborts_with_cancelled() {
    // download_start(url, path, total_size_hint = 1000) ...
    let mut mgr = DownloadManager::new();
    let sid = mgr.begin_session();
    let mut l = SessionLoop::begin(sid, Some(1000), None, 0);

    // ... roughly 400 bytes arrive ...
    assert!(matches!(on_chunk(&mut l, &mgr, 400, 10), ChunkOutcome::Continue { .. }));
    assert_eq!(l.downloaded, 400);

    // ... then download_cancel(path): the flag goes up and the caller
    // best-effort deletes `path.downloading`, leaving `path` untouched.
    mgr.cancel();
    assert_eq!(temp_download_path("path"), "path.downloading");

    // The loop observes cancellation at the next chunk and reports the
    // session as cancelled; the caller surfaces `Cancelled`.
    assert!(matches!(on_chunk(&mut l, &mgr, 100, 20), ChunkOutcome::Cancelled));
    let err = MaaError::Cancelled;
    assert_eq!(err.message(), "download cancelled");
}

#[test]
fn finish_reports_full_progress() {
    let mut mgr = DownloadManager::new();
    let sid = mgr.begin_session();
    let mut l = SessionLoop::begin(sid, Some(500), None, 0);
    on_chunk(&mut l, &mgr, 500, 1);
    match finish(&l, &mgr) {
        FinishOutcome::Complete { flush_remaining, event } => {
            assert!(flush_remaining);
            assert_eq!(event.downloaded_size, 500);
            assert_eq!(event.total_size, 500);
            assert_eq!(event.speed, 0);
            assert_eq!(event.progress_centi, 10000);
        }
        _ => panic!("expected completion"),
    }

    // With no declared total, the final event reports the true byte count.
    let sid2 = mgr.begin_session();
    let mut l2 = SessionLoop::begin(sid2, None, None, 0);
    on_chunk(&mut l2, &mgr, 123, 1);
    match finish(&l2, &mgr) {
        FinishOutcome::Complete { event, .. } => {
            assert_eq!(event.total_size, 123);
            assert_eq!(event.downloaded_size, 123);
        }
        _ => panic!("expected completion"),
    }
}
