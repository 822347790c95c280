//! The engine: arena, event graph, capture session, and the polling
//! surface.
//!
//! The engine owns at most one capture session at a time, together with
//! the arena-backed event graph, a monotonic generation counter, and a
//! status-flag bitmask. It is long-lived: after a session stops — cleanly
//! or not — a new one may begin on the same engine, with the arena and
//! the graph reset for it.
//!
//! The OS side of monitoring — spawning the target suspended, enabling
//! kernel tracing providers, the consumer's blocking reads — is a host
//! concern; this core holds the decisions. The host feeds decoded-input
//! work through `ingest_record` and reports target exit through
//! `notify_target_exit`; the engine core itself owns no process launcher,
//! so `start_monitoring` resolves the launch step as failed (see there).

use vstd::prelude::*;

use crate::arena::Arena;
use crate::event::{
    category_from_u8, spec_category_from_u8, spec_status_from_u8, status_from_u8, Event, RawRecord,
};
use crate::graph::{normalize_parent, wf_event_seq, EventGraph, EVENT_RECORD_BYTES};
use crate::session::{CaptureSession, SessionState, SessionView};
use crate::view::{flags_of, lemma_flags_bits, ViewState};

verus! {

/// Bytes in one megabyte of arena capacity.
pub const BYTES_PER_MB: usize = 1048576;

/// One tick of the generation counter. The counter saturates at the
/// numeric limit — unreachable in practice — so that it is monotonic
/// without exception.
pub open spec fn bump(g: u64) -> u64 {
    if g == u64::MAX {
        g
    } else {
        (g + 1) as u64
    }
}

/// The capture-and-storage engine behind the monitor: one arena, one
/// append-only event graph, at most one capture session, and the
/// poll/control surface observed from outside.
pub struct Engine {
    arena: Arena,
    graph: EventGraph,
    session: CaptureSession,
    generation: u64,
    error: bool,
    worker_count: usize,
    last_event_ts: u64,
}

impl Engine {
    /// The committed events, in append order.
    pub closed spec fn events(self) -> Seq<Event> {
        self.graph.events()
    }

    /// Observable value of the owned capture session.
    pub closed spec fn session_view(self) -> SessionView {
        self.session@
    }

    /// Value of the monotonic generation counter.
    pub closed spec fn spec_generation(self) -> u64 {
        self.generation
    }

    /// Whether any failure occurred during the most recent session.
    pub closed spec fn spec_error(self) -> bool {
        self.error
    }

    /// Configured worker/consumer thread count.
    pub closed spec fn spec_threads(self) -> int {
        self.worker_count as int
    }

    /// Timestamp of the most recently committed event of the current
    /// session; 0 when it has none yet.
    pub closed spec fn spec_last_timestamp(self) -> u64 {
        self.last_event_ts
    }

    /// Arena capacity in bytes.
    pub closed spec fn arena_capacity(self) -> int {
        self.arena.spec_capacity()
    }

    /// Arena bytes issued so far.
    pub closed spec fn arena_used(self) -> int {
        self.arena.spec_used()
    }

    /// How many event records the arena can hold in total.
    pub open spec fn record_capacity(self) -> int {
        self.arena_capacity() / (EVENT_RECORD_BYTES as int)
    }

    /// A session is between submit and completion.
    pub open spec fn spec_pending(self) -> bool {
        self.session_view().is_active()
    }

    /// The most recent session reached `StoppedSuccess`.
    pub open spec fn spec_complete(self) -> bool {
        self.session_view().state == SessionState::StoppedSuccess
    }

    /// At least one event has been committed to the graph.
    pub open spec fn spec_ready(self) -> bool {
        self.events().len() > 0
    }

    /// No session exists and no unconsumed completion is pending.
    pub open spec fn spec_idle(self) -> bool {
        self.session_view().state == SessionState::Idle
    }

    /// `submit` begins a new session exactly when the engine is idle or
    /// the last session completed successfully.
    pub open spec fn spec_submit_allowed(self) -> bool {
        self.spec_idle() || self.spec_complete()
    }

    /// The flags word a poll publishes.
    pub open spec fn spec_flags(self) -> u64 {
        flags_of(self.spec_pending(), self.spec_complete(), self.spec_ready(), self.spec_error())
    }

    /// The progress estimate a poll publishes, in per-mille: arena
    /// utilization while work is under way, full once the most recent
    /// session completed.
    pub open spec fn spec_progress(self) -> int {
        if self.spec_complete() {
            1000
        } else {
            self.arena_used() * 1000 / self.arena_capacity()
        }
    }

    /// Internal consistency: the graph is well-formed, every committed
    /// record is accounted against the arena at one fixed-size slot each,
    /// and the session owns a target only while active.
    pub closed spec fn wf(self) -> bool {
        &&& self.arena.wf()
        &&& self.graph.wf()
        &&& self.session@.wf()
        &&& self.graph.events().len() * EVENT_RECORD_BYTES == self.arena.spec_used()
        &&& self.arena.spec_capacity() >= BYTES_PER_MB
    }

    /// Create an engine with `arena_mb` megabytes of record storage and
    /// `threads` configured workers. No session exists yet, no event is
    /// committed, and the generation counter starts at 0.
    pub fn new(arena_mb: usize, threads: usize) -> (e: Engine)
        requires
            1 <= arena_mb,
            arena_mb * BYTES_PER_MB <= usize::MAX,
        ensures
            e.wf(),
            e.events() == Seq::<Event>::empty(),
            e.session_view() == (SessionView {
                state: SessionState::Idle,
                target_pid: 0,
                target_running: false,
                target_frozen: false,
            }),
            e.spec_generation() == 0,
            !e.spec_error(),
            e.spec_threads() == threads,
            e.spec_last_timestamp() == 0,
            e.arena_capacity() == arena_mb * BYTES_PER_MB,
            e.arena_used() == 0,
            e.spec_idle(),
    {
        Engine {
            arena: Arena::new(arena_mb * BYTES_PER_MB),
            graph: EventGraph::new(),
            session: CaptureSession::new(),
            generation: 0,
            error: false,
            worker_count: threads,
            last_event_ts: 0,
        }
    }

    /// Begin a new capture session if the engine is idle or the last
    /// session completed; otherwise do nothing, so that repeated submits
    /// during an active session are idempotent. Beginning a session
    /// resets the arena, the graph and the error flag, and enters
    /// `Capturing` (one lifecycle transition, one generation tick).
    pub fn submit(&mut self)
        requires
            old(self).wf(),
        ensures
            final(self).wf(),
            old(self).spec_submit_allowed() ==> {
                &&& final(self).events() == Seq::<Event>::empty()
                &&& final(self).arena_used() == 0
                &&& final(self).session_view() == (SessionView {
                    state: SessionState::Capturing,
                    ..old(self).session_view()
                })
                &&& final(self).spec_generation() == bump(old(self).spec_generation())
                &&& !final(self).spec_error()
                &&& final(self).spec_last_timestamp() == 0
            },
            !old(self).spec_submit_allowed() ==> same_observable(*old(self), *final(self)),
            final(self).arena_capacity() == old(self).arena_capacity(),
            final(self).spec_threads() == old(self).spec_threads(),
    {
        let st = self.session.state();
        if matches!(st, SessionState::Idle | SessionState::StoppedSuccess) {
            self.arena.reset();
            self.graph.clear();
            self.error = false;
            self.last_event_ts = 0;
            let _ = self.session.begin_capture();
            self.generation = if self.generation == u64::MAX {
                u64::MAX
            } else {
                self.generation + 1
            };
        }
    }

    /// Attempt the full monitoring lifecycle for the executable at
    /// `exe_path`. This core owns no process launcher or kernel tracing
    /// backend — that OS work belongs to the host — so when a new session
    /// may begin, the launch step resolves as failed: the session rolls
    /// back to `StoppedFailed(LaunchFailure)` (two lifecycle transitions),
    /// the error flag is set, and the call reports failure. While a
    /// session is active the call changes nothing. All failure detail is
    /// carried by the terminal state and the `ERROR` flag, never by a
    /// fault.
    pub fn start_monitoring(&mut self, exe_path: &str) -> (ok: bool)
        requires
            old(self).wf(),
        ensures
            final(self).wf(),
            !ok,
            old(self).session_view().can_begin() ==> {
                &&& final(self).events() == Seq::<Event>::empty()
                &&& final(self).arena_used() == 0
                &&& final(self).session_view() == (SessionView {
                    state: SessionState::StoppedFailed(crate::session::FailReason::LaunchFailure),
                    target_pid: 0,
                    target_running: false,
                    target_frozen: false,
                })
                &&& final(self).spec_generation() == bump(bump(old(self).spec_generation()))
                &&& final(self).spec_error()
                &&& final(self).spec_last_timestamp() == 0
            },
            !old(self).session_view().can_begin() ==> same_observable(*old(self), *final(self)),
            final(self).arena_capacity() == old(self).arena_capacity(),
            final(self).spec_threads() == old(self).spec_threads(),
    {
        if self.session.is_active() {
            return false;
        }
        self.arena.reset();
        self.graph.clear();
        self.error = false;
        self.last_event_ts = 0;
        let _ = self.session.begin_launch();
        self.generation = if self.generation == u64::MAX {
            u64::MAX
        } else {
            self.generation + 1
        };
        self.session.launch_failed();
        self.error = true;
        self.generation = if self.generation == u64::MAX {
            u64::MAX
        } else {
            self.generation + 1
        };
        false
    }

    /// Stop monitoring: deliver the stop signal if the session is still
    /// capturing, join the consumer, terminate the target if still
    /// running, and release every handle. The session ends in
    /// `StoppedSuccess`; committed events stay readable. A no-op when no
    /// session is active.
    pub fn stop_monitoring(&mut self)
        requires
            old(self).wf(),
        ensures
            final(self).wf(),
            final(self).events() == old(self).events(),
            final(self).spec_error() == old(self).spec_error(),
            final(self).spec_last_timestamp() == old(self).spec_last_timestamp(),
            final(self).arena_used() == old(self).arena_used(),
            final(self).arena_capacity() == old(self).arena_capacity(),
            final(self).spec_threads() == old(self).spec_threads(),
            old(self).session_view().state == SessionState::Capturing ==> {
                &&& final(self).session_view() == stopped_view()
                &&& final(self).spec_generation() == bump(bump(old(self).spec_generation()))
            },
            old(self).session_view().state == SessionState::Stopping ==> {
                &&& final(self).session_view() == stopped_view()
                &&& final(self).spec_generation() == bump(old(self).spec_generation())
            },
            old(self).session_view().state != SessionState::Capturing && old(
                self,
            ).session_view().state != SessionState::Stopping ==> same_observable(
                *old(self),
                *final(self),
            ),
    {
        if matches!(self.session.state(), SessionState::Capturing) {
            self.session.request_stop();
            self.generation = if self.generation == u64::MAX {
                u64::MAX
            } else {
                self.generation + 1
            };
        }
        if matches!(self.session.state(), SessionState::Stopping) {
            self.session.finish_stop();
            self.generation = if self.generation == u64::MAX {
                u64::MAX
            } else {
                self.generation + 1
            };
        }
    }

    /// Decode one raw trace record and append it to the graph: the
    /// consumer's per-record work. Returns whether the event was
    /// committed. Outside `Capturing` the record is ignored. On arena
    /// exhaustion the event is dropped, the error flag is set, and
    /// capture continues — exhaustion never ends the session and never
    /// corrupts committed records. Each commit ticks the generation.
    pub fn ingest_record(&mut self, rec: RawRecord) -> (stored: bool)
        requires
            old(self).wf(),
        ensures
            final(self).wf(),
            final(self).events().len() >= old(self).events().len(),
            final(self).session_view() == old(self).session_view(),
            final(self).arena_capacity() == old(self).arena_capacity(),
            final(self).spec_threads() == old(self).spec_threads(),
            old(self).session_view().state != SessionState::Capturing ==> !stored
                && same_observable(*old(self), *final(self)),
            old(self).session_view().state == SessionState::Capturing && old(self).arena_used()
                + EVENT_RECORD_BYTES <= old(self).arena_capacity() ==> {
                &&& stored
                &&& final(self).events() == old(self).events().push(
                    Event {
                        id: (old(self).events().len() + 1) as u64,
                        parent_id: normalize_parent(
                            rec.parent_id,
                            old(self).events().len() as int,
                        ),
                        timestamp: rec.timestamp,
                        category: spec_category_from_u8(rec.category),
                        status: spec_status_from_u8(rec.status),
                        operation: rec.operation,
                    },
                )
                &&& final(self).spec_generation() == bump(old(self).spec_generation())
                &&& final(self).spec_last_timestamp() == rec.timestamp
                &&& final(self).spec_error() == old(self).spec_error()
                &&& final(self).arena_used() == old(self).arena_used() + EVENT_RECORD_BYTES
            },
            old(self).session_view().state == SessionState::Capturing && old(self).arena_used()
                + EVENT_RECORD_BYTES > old(self).arena_capacity() ==> {
                &&& !stored
                &&& final(self).events() == old(self).events()
                &&& final(self).spec_generation() == old(self).spec_generation()
                &&& final(self).spec_last_timestamp() == old(self).spec_last_timestamp()
                &&& final(self).spec_error()
                &&& final(self).arena_used() == old(self).arena_used()
            },
    {
        if !matches!(self.session.state(), SessionState::Capturing) {
            return false;
        }
        let category = category_from_u8(rec.category);
        let status = status_from_u8(rec.status);
        match self.graph.append(
            &mut self.arena,
            rec.parent_id,
            rec.timestamp,
            category,
            status,
            rec.operation,
        ) {
            Some(_id) => {
                self.last_event_ts = rec.timestamp;
                self.generation = if self.generation == u64::MAX {
                    u64::MAX
                } else {
                    self.generation + 1
                };
                true
            },
            None => {
                self.error = true;
                false
            },
        }
    }

    /// The consumer observed that the target process exited: the session
    /// moves from `Capturing` to `Stopping` (one lifecycle transition,
    /// one generation tick). A no-op outside `Capturing`.
    pub fn notify_target_exit(&mut self)
        requires
            old(self).wf(),
        ensures
            final(self).wf(),
            final(self).events() == old(self).events(),
            final(self).spec_error() == old(self).spec_error(),
            final(self).spec_last_timestamp() == old(self).spec_last_timestamp(),
            final(self).arena_used() == old(self).arena_used(),
            final(self).arena_capacity() == old(self).arena_capacity(),
            final(self).spec_threads() == old(self).spec_threads(),
            old(self).session_view().state == SessionState::Capturing ==> {
                &&& final(self).session_view() == (SessionView {
                    state: SessionState::Stopping,
                    target_running: false,
                    target_frozen: false,
                    ..old(self).session_view()
                })
                &&& final(self).spec_generation() == bump(old(self).spec_generation())
            },
            old(self).session_view().state != SessionState::Capturing ==> same_observable(
                *old(self),
                *final(self),
            ),
    {
        if matches!(self.session.state(), SessionState::Capturing) {
            self.session.notify_target_exit();
            self.generation = if self.generation == u64::MAX {
                u64::MAX
            } else {
                self.generation + 1
            };
        }
    }

    /// Snapshot the observable state: generation, last event timestamp,
    /// flags word and progress estimate. Pure and non-mutating — cheap
    /// enough to call every frame.
    pub fn poll(&self) -> (v: ViewState)
        requires
            self.wf(),
        ensures
            v.generation == self.spec_generation(),
            v.timestamp_ns == self.spec_last_timestamp(),
            v.flags == self.spec_flags(),
            v.progress as int == self.spec_progress(),
            v.progress <= 1000,
    {
        let pending = self.session.is_active();
        let complete = matches!(self.session.state(), SessionState::StoppedSuccess);
        let ready = self.graph.count() > 0;
        let flags = (if pending {
            1u64
        } else {
            0u64
        }) | (if complete {
            2u64
        } else {
            0u64
        }) | (if ready {
            4u64
        } else {
            0u64
        }) | (if self.error {
            8u64
        } else {
            0u64
        });
        let used = self.arena.used();
        let cap = self.arena.capacity();
        let progress: u16 = if complete {
            1000
        } else {
            let prod: u128 = (used as u128) * 1000;
            let quot: u128 = prod / (cap as u128);
            proof {
                assert(used as int * 1000 / (cap as int) <= 1000) by (nonlinear_arith)
                    requires
                        0 <= used <= cap,
                        1 <= cap,
                ;
            }
            quot as u16
        };
        ViewState { generation: self.generation, timestamp_ns: self.last_event_ts, flags, progress }
    }

    /// True when no session exists and no unconsumed completion is
    /// pending.
    pub fn idle(&self) -> (b: bool)
        ensures
            b == self.spec_idle(),
    {
        matches!(self.session.state(), SessionState::Idle)
    }

    /// Configured worker/consumer thread count.
    pub fn threads(&self) -> (n: usize)
        ensures
            n == self.spec_threads(),
    {
        self.worker_count
    }

    /// Number of committed events. Never decreases while a session runs;
    /// once it returns `n`, indices `0..n` are committed and immutable.
    pub fn event_count(&self) -> (n: usize)
        ensures
            n == self.events().len(),
    {
        self.graph.count()
    }

    /// The committed event at `index`, or nothing when `index` is at or
    /// past the count — an ordinary absent result, never a fault. For a
    /// fixed engine state the result is determined by `index` alone, so
    /// consecutive calls return identical field values.
    pub fn get_event(&self, index: usize) -> (r: Option<Event>)
        ensures
            index < self.events().len() ==> r == Some(self.events()[index as int]),
            index >= self.events().len() ==> r is None,
    {
        self.graph.get(index)
    }

    /// A restartable, finite, ordered iterator over the events committed
    /// as of call time: the snapshot is value-copied and unaffected by
    /// later appends.
    pub fn iter_events(&self) -> (it: EventIter)
        ensures
            it.events() == self.events(),
            it.position() == 0,
    {
        let n = self.graph.count();
        let mut events: Vec<Event> = Vec::new();
        let mut i: usize = 0;
        while i < n
            invariant
                0 <= i <= n,
                n == self.events().len(),
                events@ == self.events().subrange(0, i as int),
            decreases n - i,
        {
            match self.graph.get(i) {
                Some(ev) => events.push(ev),
                None => (),
            }
            proof {
                assert(events@ =~= self.events().subrange(0, i + 1));
            }
            i = i + 1;
        }
        proof {
            assert(events@ =~= self.events());
        }
        EventIter { events, index: 0 }
    }

    /// Suspend all threads of the target, without involving the consumer;
    /// safe to call while capturing. A no-op — safe, side-effect free,
    /// never failing — when no live target is owned.
    pub fn freeze_target(&mut self)
        requires
            old(self).wf(),
        ensures
            final(self).wf(),
            same_storage(*old(self), *final(self)),
            old(self).session_view().target_live() ==> final(self).session_view() == (SessionView {
                target_frozen: true,
                ..old(self).session_view()
            }),
            !old(self).session_view().target_live() ==> final(self).session_view() == old(
                self,
            ).session_view(),
    {
        self.session.freeze_target();
    }

    /// Resume all threads of the target. A no-op when no live target is
    /// owned.
    pub fn unfreeze_target(&mut self)
        requires
            old(self).wf(),
        ensures
            final(self).wf(),
            same_storage(*old(self), *final(self)),
            old(self).session_view().target_live() ==> final(self).session_view() == (SessionView {
                target_frozen: false,
                ..old(self).session_view()
            }),
            !old(self).session_view().target_live() ==> final(self).session_view() == old(
                self,
            ).session_view(),
    {
        self.session.unfreeze_target();
    }

    /// Terminate the target immediately. The consumer observes the exit
    /// on its own and reports it through `notify_target_exit`. A no-op
    /// when no live target is owned.
    pub fn kill_target(&mut self)
        requires
            old(self).wf(),
        ensures
            final(self).wf(),
            same_storage(*old(self), *final(self)),
            old(self).session_view().target_live() ==> final(self).session_view() == (SessionView {
                target_running: false,
                target_frozen: false,
                ..old(self).session_view()
            }),
            !old(self).session_view().target_live() ==> final(self).session_view() == old(
                self,
            ).session_view(),
    {
        self.session.kill_target();
    }

    /// OS process id of the current target; 0 when no session owns one.
    pub fn target_pid(&self) -> (pid: u32)
        ensures
            pid == self.session_view().target_pid,
    {
        self.session.target_pid()
    }

    /// Non-blocking liveness check of the current target; false when no
    /// session owns one.
    pub fn target_running(&self) -> (b: bool)
        ensures
            b == self.session_view().target_running,
    {
        self.session.target_running()
    }
}

/// The session view after a completed stop: terminal success, nothing
/// owned.
pub open spec fn stopped_view() -> SessionView {
    SessionView {
        state: SessionState::StoppedSuccess,
        target_pid: 0,
        target_running: false,
        target_frozen: false,
    }
}

/// Everything outside the session is unchanged between two engine states:
/// events, arena accounting, counters, flags and configuration.
pub open spec fn same_storage(pre: Engine, post: Engine) -> bool {
    &&& post.events() == pre.events()
    &&& post.arena_used() == pre.arena_used()
    &&& post.arena_capacity() == pre.arena_capacity()
    &&& post.spec_threads() == pre.spec_threads()
    &&& post.spec_generation() == pre.spec_generation()
    &&& post.spec_error() == pre.spec_error()
    &&& post.spec_last_timestamp() == pre.spec_last_timestamp()
}

/// Two engine states are observably identical.
pub open spec fn same_observable(pre: Engine, post: Engine) -> bool {
    same_storage(pre, post) && post.session_view() == pre.session_view()
}

/// Iterator over a value-copied snapshot of committed events.
pub struct EventIter {
    events: Vec<Event>,
    index: usize,
}

impl EventIter {
    /// The snapshot being walked.
    pub closed spec fn events(self) -> Seq<Event> {
        self.events@
    }

    /// How far the walk has come.
    pub closed spec fn position(self) -> int {
        self.index as int
    }

    /// The next snapshot event, or nothing once the snapshot is
    /// exhausted.
    pub fn next(&mut self) -> (r: Option<Event>)
        ensures
            final(self).events() == old(self).events(),
            old(self).position() < old(self).events().len() ==> r == Some(
                old(self).events()[old(self).position()],
            ) && final(self).position() == old(self).position() + 1,
            old(self).position() >= old(self).events().len() ==> r is None && final(self).position()
                == old(self).position(),
    {
        if self.index < self.events.len() {
            let e = self.events[self.index];
            self.index = self.index + 1;
            Some(e)
        } else {
            None
        }
    }

    /// Exact bounds on the remaining walk: both ends equal the number of
    /// snapshot events not yet returned.
    pub fn size_hint(&self) -> (r: (usize, Option<usize>))
        ensures
            r.0 == if self.position() < self.events().len() {
                self.events().len() - self.position()
            } else {
                0
            },
            r.1 == Some(r.0),
    {
        let remaining = if self.index < self.events.len() {
            self.events.len() - self.index
        } else {
            0
        };
        (remaining, Some(remaining))
    }
}

/// Law: the flags word a poll publishes is readable bit by bit — each of
/// the four conditions appears in exactly its own bit.
pub proof fn lemma_engine_flags_readable(e: Engine)
    ensures
        (e.spec_flags() & ViewState::PENDING != 0) == e.spec_pending(),
        (e.spec_flags() & ViewState::COMPLETE != 0) == e.spec_complete(),
        (e.spec_flags() & ViewState::READY != 0) == e.spec_ready(),
        (e.spec_flags() & ViewState::ERROR != 0) == e.spec_error(),
{
    lemma_flags_bits(e.spec_pending(), e.spec_complete(), e.spec_ready(), e.spec_error());
}

/// Law: once the most recent session has reached `StoppedSuccess`, a poll
/// shows `COMPLETE` set and `PENDING` cleared; while a session is active,
/// a poll shows `PENDING` set and `COMPLETE` cleared.
pub proof fn lemma_completion_flags(e: Engine)
    ensures
        e.spec_complete() ==> e.spec_flags() & ViewState::COMPLETE != 0 && e.spec_flags()
            & ViewState::PENDING == 0,
        e.spec_pending() ==> e.spec_flags() & ViewState::PENDING != 0 && e.spec_flags()
            & ViewState::COMPLETE == 0,
{
    lemma_engine_flags_readable(e);
}

/// Law: what a consistent engine guarantees of its parts — the committed
/// events are well-formed (ids are the append positions plus one, parent
/// links point strictly earlier), every committed record is accounted
/// against the arena at one fixed-size slot, and the session owns a
/// target only while active.
pub proof fn lemma_engine_wf_parts(e: Engine)
    requires
        e.wf(),
    ensures
        wf_event_seq(e.events()),
        e.events().len() * EVENT_RECORD_BYTES == e.arena_used(),
        0 <= e.arena_used() <= e.arena_capacity(),
        e.arena_capacity() >= BYTES_PER_MB,
        e.session_view().wf(),
{
}

/// Law: the committed event count never exceeds the number of records the
/// arena was sized for — appends past that bound are dropped, never
/// stored.
pub proof fn lemma_count_bounded(e: Engine)
    requires
        e.wf(),
    ensures
        e.events().len() <= e.record_capacity(),
{
    assert(e.events().len() <= e.arena_capacity() / (EVENT_RECORD_BYTES as int))
        by (nonlinear_arith)
        requires
            e.events().len() * EVENT_RECORD_BYTES == e.arena_used(),
            0 <= e.arena_used() <= e.arena_capacity(),
            EVENT_RECORD_BYTES == 32,
    ;
}

/// Law: once the count has reached the arena's record capacity, the next
/// append must be dropped — the arena cannot seat another record, so an
/// engine sized for `N` records caps `event_count` at `N`.
pub proof fn lemma_full_arena_drops_next(e: Engine)
    requires
        e.wf(),
        e.events().len() == e.record_capacity(),
    ensures
        e.arena_used() + EVENT_RECORD_BYTES > e.arena_capacity(),
{
    assert(e.events().len() * EVENT_RECORD_BYTES + EVENT_RECORD_BYTES > e.arena_capacity())
        by (nonlinear_arith)
        requires
            e.events().len() == e.arena_capacity() / (EVENT_RECORD_BYTES as int),
            0 <= e.arena_capacity(),
            EVENT_RECORD_BYTES == 32,
    ;
}

/// Law: a generation tick never decreases the counter, so the generation
/// a poller reads is monotonically non-decreasing over an engine's life.
pub proof fn lemma_bump_monotonic(g: u64)
    ensures
        bump(g) >= g,
        bump(bump(g)) >= g,
{
}

/// Law: an append leaves every previously committed index unchanged —
/// two reads of the same index on either side of an append agree.
pub proof fn lemma_append_preserves_committed(pre: Seq<Event>, ev: Event, i: int)
    requires
        0 <= i < pre.len(),
    ensures
        pre.push(ev)[i] == pre[i],
{
}

} // verus!
