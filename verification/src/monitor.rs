//! Frame-rate monitor shell around the engine.
//!
//! `App` pairs one engine with the view-state snapshot most recently
//! polled from it, the way an interactive front end consumes the engine:
//! `tick` refreshes the snapshot once per frame and `start` submits a new
//! session when the engine is idle or the last observed snapshot was
//! complete.

use vstd::prelude::*;

use crate::engine::{bump, same_observable, Engine};
use crate::event::Event;
use crate::session::{SessionState, SessionView};
use crate::view::ViewState;

verus! {

/// One engine plus the last polled view-state snapshot.
pub struct App {
    engine: Engine,
    state: ViewState,
}

impl App {
    /// The owned engine, as a specification value.
    pub closed spec fn spec_engine(self) -> Engine {
        self.engine
    }

    /// The last polled snapshot.
    pub closed spec fn spec_state(self) -> ViewState {
        self.state
    }

    /// The owned engine is internally consistent.
    pub open spec fn wf(self) -> bool {
        self.spec_engine().wf()
    }

    /// `start` submits exactly when the engine reports idle or the last
    /// snapshot carries the `COMPLETE` bit.
    pub open spec fn spec_start_requested(self) -> bool {
        self.spec_engine().spec_idle() || (self.spec_state().flags & ViewState::COMPLETE != 0)
    }

    /// Create a shell over a fresh engine; the initial snapshot is all
    /// zeroes, as if nothing had ever been polled.
    pub fn new(arena_mb: usize, threads: usize) -> (app: App)
        requires
            1 <= arena_mb,
            arena_mb * crate::engine::BYTES_PER_MB <= usize::MAX,
        ensures
            app.wf(),
            app.spec_engine().events() == Seq::<Event>::empty(),
            app.spec_engine().spec_idle(),
            app.spec_engine().spec_generation() == 0,
            app.spec_engine().spec_threads() == threads,
            app.spec_state() == (ViewState { generation: 0, timestamp_ns: 0, flags: 0, progress: 0 }),
    {
        App {
            engine: Engine::new(arena_mb, threads),
            state: ViewState { generation: 0, timestamp_ns: 0, flags: 0, progress: 0 },
        }
    }

    /// Submit a new capture session when the engine is idle or the last
    /// snapshot was complete; otherwise change nothing. The snapshot is
    /// left as it was — only the next `tick` observes the new session.
    pub fn start(&mut self)
        requires
            old(self).wf(),
        ensures
            final(self).wf(),
            final(self).spec_state() == old(self).spec_state(),
            old(self).spec_start_requested() && old(self).spec_engine().spec_submit_allowed()
                ==> {
                &&& final(self).spec_engine().events() == Seq::<Event>::empty()
                &&& final(self).spec_engine().session_view() == (SessionView {
                    state: SessionState::Capturing,
                    ..old(self).spec_engine().session_view()
                })
                &&& final(self).spec_engine().spec_generation() == bump(
                    old(self).spec_engine().spec_generation(),
                )
                &&& !final(self).spec_engine().spec_error()
            },
            !(old(self).spec_start_requested() && old(self).spec_engine().spec_submit_allowed())
                ==> same_observable(old(self).spec_engine(), final(self).spec_engine()),
    {
        if self.engine.idle() || self.state.is_complete() {
            self.engine.submit();
        }
    }

    /// Poll the engine and keep the returned snapshot for rendering.
    pub fn tick(&mut self)
        requires
            old(self).wf(),
        ensures
            final(self).wf(),
            final(self).spec_engine() == old(self).spec_engine(),
            final(self).spec_state().generation == old(self).spec_engine().spec_generation(),
            final(self).spec_state().timestamp_ns == old(self).spec_engine().spec_last_timestamp(),
            final(self).spec_state().flags == old(self).spec_engine().spec_flags(),
            final(self).spec_state().progress as int == old(self).spec_engine().spec_progress(),
    {
        self.state = self.engine.poll();
    }

    /// The last polled snapshot, for rendering.
    pub fn state(&self) -> (v: &ViewState)
        ensures
            *v == self.spec_state(),
    {
        &self.state
    }

    /// Configured worker/consumer thread count of the engine.
    pub fn threads(&self) -> (n: usize)
        ensures
            n == self.spec_engine().spec_threads(),
    {
        self.engine.threads()
    }
}

} // verus!
