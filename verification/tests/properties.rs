//! Behavioral properties of the capture engine: append-only immutability,
//! id/parent discipline, lifecycle flags, arena exhaustion, and the
//! session state machine.

use exeray::{
    category_code, category_from_u8, status_code, status_from_u8, App, Arena, CaptureSession,
    Category, Engine, FailReason, RawRecord, SessionState, Status, ViewState,
};

fn record(parent_id: u64, timestamp: u64, category: u8, status: u8, operation: u8) -> RawRecord {
    RawRecord { parent_id, timestamp, category, status, operation }
}

// ---------------------------------------------------------------------
// Construction scenario
// ---------------------------------------------------------------------

#[test]
fn test_fresh_engine_scenario() {
    let mut engine = Engine::new(64, 2);
    assert_eq!(engine.event_count(), 0);
    assert!(engine.idle());
    assert_eq!(engine.target_pid(), 0);
    assert_eq!(engine.threads(), 2);
    let ok = engine.start_monitoring("nonexistent-path");
    assert!(!ok);
    assert!(!engine.target_running());
    engine.stop_monitoring();
}

#[test]
fn test_fresh_engine_poll_is_all_zero() {
    let engine = Engine::new(64, 1);
    let v = engine.poll();
    assert_eq!(v.generation, 0);
    assert_eq!(v.timestamp_ns, 0);
    assert_eq!(v.flags, ViewState::IDLE);
    assert_eq!(v.progress, 0);
    assert!(!v.is_pending());
    assert!(!v.is_complete());
}

// ---------------------------------------------------------------------
// Append-only graph: counts, immutability, ids and parent links
// ---------------------------------------------------------------------

#[test]
fn test_event_count_monotonic_during_session() {
    let mut engine = Engine::new(64, 1);
    engine.submit();
    let mut last = engine.event_count();
    for i in 0..100u64 {
        engine.ingest_record(record(0, i, 0, 0, 0));
        let now = engine.event_count();
        assert!(now >= last);
        last = now;
    }
    assert_eq!(engine.event_count(), 100);
}

#[test]
fn test_get_event_repeatable_and_append_only() {
    let mut engine = Engine::new(64, 1);
    engine.submit();
    assert!(engine.ingest_record(record(0, 10, 1, 0, 3)));
    assert!(engine.ingest_record(record(1, 20, 2, 1, 4)));
    let first = engine.get_event(0).unwrap();
    let again = engine.get_event(0).unwrap();
    assert_eq!(first, again);
    // A later append leaves the committed record untouched.
    assert!(engine.ingest_record(record(0, 30, 3, 2, 5)));
    assert_eq!(engine.get_event(0).unwrap(), first);
}

#[test]
fn test_get_event_absent_at_and_past_count() {
    let mut engine = Engine::new(64, 1);
    assert!(engine.get_event(0).is_none());
    engine.submit();
    assert!(engine.ingest_record(record(0, 1, 0, 0, 0)));
    assert!(engine.get_event(0).is_some());
    assert!(engine.get_event(1).is_none());
    assert!(engine.get_event(usize::MAX).is_none());
}

#[test]
fn test_ids_strictly_increasing_and_parents_precede() {
    let mut engine = Engine::new(64, 1);
    engine.submit();
    assert!(engine.ingest_record(record(0, 1, 0, 0, 0)));
    assert!(engine.ingest_record(record(1, 2, 1, 0, 0)));
    assert!(engine.ingest_record(record(99, 3, 2, 0, 0))); // dangling parent
    assert!(engine.ingest_record(record(3, 4, 3, 0, 0)));
    let n = engine.event_count();
    assert_eq!(n, 4);
    for i in 0..n {
        let e = engine.get_event(i).unwrap();
        assert_eq!(e.id, i as u64 + 1);
        if i > 0 {
            assert!(engine.get_event(i - 1).unwrap().id < e.id);
        }
        if e.parent_id != 0 {
            let mut found = false;
            for j in 0..i {
                if engine.get_event(j).unwrap().id == e.parent_id {
                    found = true;
                }
            }
            assert!(found);
        }
    }
    // The dangling parent claim was stored as a root.
    assert_eq!(engine.get_event(2).unwrap().parent_id, 0);
    // The valid claims were kept.
    assert_eq!(engine.get_event(1).unwrap().parent_id, 1);
    assert_eq!(engine.get_event(3).unwrap().parent_id, 3);
}

#[test]
fn test_ingest_decodes_record_fields() {
    let mut engine = Engine::new(64, 1);
    engine.submit();
    assert!(engine.ingest_record(record(0, 123, 2, 4, 7)));
    let e = engine.get_event(0).unwrap();
    assert_eq!(e.id, 1);
    assert_eq!(e.parent_id, 0);
    assert_eq!(e.timestamp, 123);
    assert_eq!(e.category, Category::Network);
    assert_eq!(e.status, Status::Suspicious);
    assert_eq!(e.operation, 7);
}

#[test]
fn test_ingest_ignored_outside_capture() {
    let mut engine = Engine::new(64, 1);
    assert!(!engine.ingest_record(record(0, 1, 0, 0, 0)));
    assert_eq!(engine.event_count(), 0);
    engine.submit();
    assert!(engine.ingest_record(record(0, 1, 0, 0, 0)));
    engine.stop_monitoring();
    assert!(!engine.ingest_record(record(0, 2, 0, 0, 0)));
    assert_eq!(engine.event_count(), 1);
}

// ---------------------------------------------------------------------
// Boundary enumeration decode
// ---------------------------------------------------------------------

#[test]
fn test_category_code_round_trip_all() {
    for code in 0..16u8 {
        assert_eq!(category_code(category_from_u8(code)), code);
    }
}

#[test]
fn test_status_code_round_trip_all() {
    for code in 0..5u8 {
        assert_eq!(status_code(status_from_u8(code)), code);
    }
}

#[test]
fn test_out_of_range_codes_fall_back() {
    assert_eq!(category_from_u8(16), Category::FileSystem);
    assert_eq!(category_from_u8(200), Category::FileSystem);
    assert_eq!(status_from_u8(5), Status::Error);
    assert_eq!(status_from_u8(255), Status::Error);
}

// ---------------------------------------------------------------------
// Lifecycle flags
// ---------------------------------------------------------------------

#[test]
fn test_pending_and_complete_flags_over_session() {
    let mut engine = Engine::new(64, 1);
    engine.submit();
    let v = engine.poll();
    assert!(v.is_pending());
    assert!(!v.is_complete());
    assert_eq!(v.flags & ViewState::READY, 0);
    assert!(engine.ingest_record(record(0, 5, 0, 0, 0)));
    let v = engine.poll();
    assert!(v.is_pending());
    assert_ne!(v.flags & ViewState::READY, 0);
    engine.stop_monitoring();
    let v = engine.poll();
    assert!(v.is_complete());
    assert!(!v.is_pending());
    assert_ne!(v.flags & ViewState::READY, 0);
    assert_eq!(v.flags & ViewState::ERROR, 0);
}

#[test]
fn test_submit_idempotent_while_pending() {
    let mut engine = Engine::new(64, 1);
    engine.submit();
    assert!(engine.ingest_record(record(0, 1, 0, 0, 0)));
    let g = engine.poll().generation;
    engine.submit();
    // The repeated submit changed nothing: same generation, same events.
    assert_eq!(engine.poll().generation, g);
    assert_eq!(engine.event_count(), 1);
}

#[test]
fn test_submit_after_completion_resets_for_new_session() {
    let mut engine = Engine::new(64, 1);
    engine.submit();
    assert!(engine.ingest_record(record(0, 1, 0, 0, 0)));
    engine.stop_monitoring();
    assert!(engine.poll().is_complete());
    engine.submit();
    let v = engine.poll();
    assert!(v.is_pending());
    assert!(!v.is_complete());
    assert_eq!(engine.event_count(), 0);
    assert_eq!(v.timestamp_ns, 0);
}

#[test]
fn test_failed_start_sets_error_and_blocks_submit() {
    let mut engine = Engine::new(64, 1);
    assert!(!engine.start_monitoring("nonexistent-path"));
    let v = engine.poll();
    assert_ne!(v.flags & ViewState::ERROR, 0);
    assert!(!v.is_pending());
    assert!(!v.is_complete());
    // submit only begins when idle or complete; after a failure it is a
    // no-op.
    engine.submit();
    assert!(!engine.poll().is_pending());
    // start_monitoring may be issued again after any stop.
    assert!(!engine.start_monitoring("nonexistent-path"));
    assert_ne!(engine.poll().flags & ViewState::ERROR, 0);
}

#[test]
fn test_stop_without_session_is_noop() {
    let mut engine = Engine::new(64, 1);
    engine.stop_monitoring();
    let v = engine.poll();
    assert_eq!(v.generation, 0);
    assert_eq!(v.flags, 0);
    assert!(engine.idle());
}

#[test]
fn test_generation_counts_appends_and_transitions() {
    let mut engine = Engine::new(64, 1);
    assert_eq!(engine.poll().generation, 0);
    engine.submit(); // one transition
    assert_eq!(engine.poll().generation, 1);
    assert!(engine.ingest_record(record(0, 1, 0, 0, 0))); // one append
    assert_eq!(engine.poll().generation, 2);
    engine.stop_monitoring(); // capturing -> stopping -> stopped
    assert_eq!(engine.poll().generation, 4);
    assert!(!engine.start_monitoring("x")); // launching -> failed
    assert_eq!(engine.poll().generation, 6);
}

#[test]
fn test_generation_monotonic_over_any_sequence() {
    let mut engine = Engine::new(64, 1);
    let mut last = engine.poll().generation;
    engine.submit();
    for i in 0..50u64 {
        engine.ingest_record(record(0, i, 0, 0, 0));
        let g = engine.poll().generation;
        assert!(g >= last);
        last = g;
    }
    engine.stop_monitoring();
    assert!(engine.poll().generation >= last);
}

#[test]
fn test_timestamp_follows_latest_event() {
    let mut engine = Engine::new(64, 1);
    engine.submit();
    assert!(engine.ingest_record(record(0, 55, 0, 0, 0)));
    assert_eq!(engine.poll().timestamp_ns, 55);
    assert!(engine.ingest_record(record(0, 77, 0, 0, 0)));
    assert_eq!(engine.poll().timestamp_ns, 77);
    engine.stop_monitoring();
    assert_eq!(engine.poll().timestamp_ns, 77);
}

// ---------------------------------------------------------------------
// Arena exhaustion
// ---------------------------------------------------------------------

#[test]
fn test_arena_exhaustion_caps_count_and_sets_error() {
    // 1 MB of arena holds exactly 32768 records of 32 bytes.
    let capacity = 32768usize;
    let extra = 5usize;
    let mut engine = Engine::new(1, 1);
    engine.submit();
    let mut stored = 0usize;
    for i in 0..(capacity + extra) {
        if engine.ingest_record(record(0, i as u64, 0, 0, 0)) {
            stored += 1;
        }
    }
    assert_eq!(stored, capacity);
    assert_eq!(engine.event_count(), capacity);
    let v = engine.poll();
    assert_ne!(v.flags & ViewState::ERROR, 0);
    // Exhaustion does not terminate the session.
    assert!(v.is_pending());
    engine.stop_monitoring();
    let v = engine.poll();
    assert!(v.is_complete());
    assert_ne!(v.flags & ViewState::ERROR, 0);
    // Committed records survived the dropped appends.
    assert_eq!(engine.get_event(capacity - 1).unwrap().id, capacity as u64);
}

#[test]
fn test_progress_tracks_arena_utilization() {
    let mut engine = Engine::new(1, 1);
    assert_eq!(engine.poll().progress, 0);
    engine.submit();
    for i in 0..16384u64 {
        assert!(engine.ingest_record(record(0, i, 0, 0, 0)));
    }
    // Half of the 32768-record arena: 500 per-mille.
    assert_eq!(engine.poll().progress, 500);
    engine.stop_monitoring();
    assert_eq!(engine.poll().progress, 1000);
}

#[test]
fn test_arena_allocate_and_reset() {
    let mut arena = Arena::new(100);
    assert_eq!(arena.capacity(), 100);
    assert_eq!(arena.allocate(60), Some(0));
    assert_eq!(arena.allocate(60), None);
    assert_eq!(arena.used(), 60);
    assert_eq!(arena.allocate(40), Some(60));
    assert_eq!(arena.remaining(), 0);
    assert_eq!(arena.allocate(1), None);
    arena.reset();
    assert_eq!(arena.used(), 0);
    assert_eq!(arena.allocate(100), Some(0));
}

// ---------------------------------------------------------------------
// Iterator snapshots
// ---------------------------------------------------------------------

#[test]
fn test_iter_events_ordered_and_sized() {
    let mut engine = Engine::new(64, 1);
    engine.submit();
    for i in 0..3u64 {
        assert!(engine.ingest_record(record(0, i * 10, 0, 0, 0)));
    }
    let mut iter = engine.iter_events();
    assert_eq!(iter.size_hint(), (3, Some(3)));
    let mut expected_id = 1u64;
    while let Some(event) = iter.next() {
        assert_eq!(event.id, expected_id);
        expected_id += 1;
    }
    assert_eq!(expected_id, 4);
    assert_eq!(iter.size_hint(), (0, Some(0)));
    assert!(iter.next().is_none());
}

#[test]
fn test_iter_events_snapshot_unaffected_by_later_appends() {
    let mut engine = Engine::new(64, 1);
    engine.submit();
    assert!(engine.ingest_record(record(0, 1, 0, 0, 0)));
    let mut iter = engine.iter_events();
    assert!(engine.ingest_record(record(0, 2, 0, 0, 0)));
    let mut count = 0;
    while let Some(_event) = iter.next() {
        count += 1;
    }
    assert_eq!(count, 1);
    // A fresh iterator restarts and sees the new commit.
    let mut iter = engine.iter_events();
    assert_eq!(iter.size_hint(), (2, Some(2)));
}

// ---------------------------------------------------------------------
// Target control is a safe no-op without a session
// ---------------------------------------------------------------------

#[test]
fn test_target_control_noops_without_session() {
    let mut engine = Engine::new(64, 1);
    engine.freeze_target();
    engine.unfreeze_target();
    engine.kill_target();
    assert_eq!(engine.target_pid(), 0);
    assert!(!engine.target_running());
    // Also after a completed session.
    engine.submit();
    engine.stop_monitoring();
    engine.freeze_target();
    engine.kill_target();
    assert_eq!(engine.target_pid(), 0);
    assert!(!engine.target_running());
}

// ---------------------------------------------------------------------
// Capture-session state machine
// ---------------------------------------------------------------------

#[test]
fn test_session_full_lifecycle() {
    let mut s = CaptureSession::new();
    assert_eq!(s.state(), SessionState::Idle);
    assert!(s.begin_launch());
    assert_eq!(s.state(), SessionState::Launching);
    s.launch_succeeded(42);
    assert_eq!(s.state(), SessionState::Attaching);
    assert_eq!(s.target_pid(), 42);
    assert!(s.target_running());
    assert!(s.target_frozen()); // spawned suspended
    s.attach_succeeded();
    assert_eq!(s.state(), SessionState::Capturing);
    assert!(!s.target_frozen()); // released to run
    s.freeze_target();
    assert!(s.target_frozen());
    s.unfreeze_target();
    assert!(!s.target_frozen());
    s.kill_target();
    assert!(!s.target_running());
    s.notify_target_exit();
    assert_eq!(s.state(), SessionState::Stopping);
    s.finish_stop();
    assert_eq!(s.state(), SessionState::StoppedSuccess);
    assert_eq!(s.target_pid(), 0);
    assert!(!s.target_running());
}

#[test]
fn test_session_launch_failure_rolls_back() {
    let mut s = CaptureSession::new();
    assert!(s.begin_launch());
    s.launch_failed();
    assert_eq!(s.state(), SessionState::StoppedFailed(FailReason::LaunchFailure));
    assert_eq!(s.target_pid(), 0);
    assert!(!s.target_running());
    // A new attempt may begin after the failure.
    assert!(s.begin_launch());
    assert_eq!(s.state(), SessionState::Launching);
}

#[test]
fn test_session_attach_failure_rolls_back() {
    let mut s = CaptureSession::new();
    assert!(s.begin_launch());
    s.launch_succeeded(7);
    s.attach_failed();
    assert_eq!(s.state(), SessionState::StoppedFailed(FailReason::AttachFailure));
    assert_eq!(s.target_pid(), 0);
    assert!(!s.target_running());
    assert!(!s.target_frozen());
}

#[test]
fn test_session_refuses_overlapping_sessions() {
    let mut s = CaptureSession::new();
    assert!(s.begin_capture());
    assert_eq!(s.state(), SessionState::Capturing);
    assert!(!s.begin_launch());
    assert!(!s.begin_capture());
    assert_eq!(s.state(), SessionState::Capturing);
}

#[test]
fn test_session_target_ops_noop_without_target() {
    let mut s = CaptureSession::new();
    s.freeze_target();
    s.unfreeze_target();
    s.kill_target();
    assert_eq!(s.state(), SessionState::Idle);
    assert_eq!(s.target_pid(), 0);
    assert!(!s.target_running());
    assert!(!s.target_frozen());
    // A capture session without a separate target ignores them too.
    assert!(s.begin_capture());
    s.freeze_target();
    assert!(!s.target_frozen());
}

// ---------------------------------------------------------------------
// Concurrent-observer discipline, emulated deterministically: a steady
// source commits records while pollers interleave reads; no observation
// may ever run backwards, and every observed record must match the final
// authoritative snapshot.
// ---------------------------------------------------------------------

#[test]
fn test_interleaved_pollers_see_consistent_history() {
    let mut engine = Engine::new(64, 1);
    engine.submit();
    let mut observed_counts: Vec<usize> = Vec::new();
    let mut observed_events: Vec<(usize, exeray::Event)> = Vec::new();
    for i in 0..200u64 {
        assert!(engine.ingest_record(record(if i % 3 == 0 { 0 } else { i / 2 }, i, 0, 0, 0)));
        // Poller A: counts.
        observed_counts.push(engine.event_count());
        // Poller B: reads a committed index.
        let idx = (i as usize) / 2;
        if let Some(e) = engine.get_event(idx) {
            observed_events.push((idx, e));
        }
    }
    engine.stop_monitoring();
    for w in observed_counts.windows(2) {
        assert!(w[0] <= w[1]);
    }
    for (idx, e) in observed_events {
        assert_eq!(engine.get_event(idx).unwrap(), e);
    }
}

// ---------------------------------------------------------------------
// Monitor shell
// ---------------------------------------------------------------------

#[test]
fn test_app_start_and_tick() {
    let mut app = App::new(64, 0);
    assert_eq!(app.threads(), 0);
    assert_eq!(app.state().generation, 0);
    assert_eq!(app.state().flags, 0);
    app.start();
    // The snapshot refreshes only on tick.
    assert_eq!(app.state().generation, 0);
    app.tick();
    assert_eq!(app.state().generation, 1);
    assert!(app.state().is_pending());
    assert!(!app.state().is_complete());
    // A second start while pending changes nothing.
    app.start();
    app.tick();
    assert_eq!(app.state().generation, 1);
}
