//! Capture-session lifecycle state machine.
//!
//! A capture session is bound one-to-one to a monitored target process
//! instance and advances `Idle -> Launching -> Attaching -> Capturing ->
//! Stopping -> Stopped`. The OS work of each step — spawning the target
//! suspended, enabling tracing providers, unblocking and joining the
//! consumer — is performed by the host driving this machine; every method
//! here is the decision part of one step: total, never faulting, and
//! exact about the transition it makes. Target-control operations are
//! no-ops whenever no target is owned.

use vstd::prelude::*;

verus! {

/// Why a session ended in `StoppedFailed`.
#[derive(Clone, Copy, Debug, PartialEq, Eq, Structural)]
pub enum FailReason {
    /// The target could not be spawned in a suspended state.
    LaunchFailure,
    /// The tracing session or provider enablement failed.
    AttachFailure,
}

/// Lifecycle states of a capture session.
#[derive(Clone, Copy, Debug, PartialEq, Eq, Structural)]
pub enum SessionState {
    /// No session has been started yet.
    Idle,
    /// The target process is being spawned, suspended.
    Launching,
    /// The tracing session is being created and providers enabled.
    Attaching,
    /// The consumer is decoding trace records into events.
    Capturing,
    /// A stop was requested or the target exited; the consumer is
    /// being joined.
    Stopping,
    /// The session ended cleanly.
    StoppedSuccess,
    /// The session never reached capture.
    StoppedFailed(FailReason),
}

/// Observable value of a capture session: its lifecycle state and what it
/// knows of the owned target process.
#[derive(Clone, Copy, Debug, PartialEq, Eq, Structural)]
pub struct SessionView {
    pub state: SessionState,
    /// OS process id of the owned target; 0 when none is owned.
    pub target_pid: u32,
    /// Whether the owned target is believed to be running.
    pub target_running: bool,
    /// Whether the owned target's threads are currently suspended.
    pub target_frozen: bool,
}

impl SessionView {
    /// A session exists and has not reached a terminal state.
    pub open spec fn is_active(self) -> bool {
        self.state == SessionState::Launching || self.state == SessionState::Attaching
            || self.state == SessionState::Capturing || self.state == SessionState::Stopping
    }

    /// A new session may begin: nothing is running and any previous
    /// outcome may be discarded.
    pub open spec fn can_begin(self) -> bool {
        !self.is_active()
    }

    /// A target process is currently owned and alive.
    pub open spec fn target_live(self) -> bool {
        self.is_active() && self.target_pid != 0 && self.target_running
    }

    /// When no session is active, no target is owned.
    pub open spec fn wf(self) -> bool {
        !self.is_active() ==> self.target_pid == 0 && !self.target_running
            && !self.target_frozen
    }
}

/// The ephemeral association between one monitored target process and its
/// tracing subscription, advanced step by step by the owning engine.
pub struct CaptureSession {
    state: SessionState,
    target_pid: u32,
    target_running: bool,
    target_frozen: bool,
}

impl View for CaptureSession {
    type V = SessionView;

    closed spec fn view(&self) -> SessionView {
        SessionView {
            state: self.state,
            target_pid: self.target_pid,
            target_running: self.target_running,
            target_frozen: self.target_frozen,
        }
    }
}

impl CaptureSession {
    /// A fresh machine: idle, owning nothing.
    pub fn new() -> (s: CaptureSession)
        ensures
            s@.wf(),
            s@ == (SessionView {
                state: SessionState::Idle,
                target_pid: 0,
                target_running: false,
                target_frozen: false,
            }),
    {
        CaptureSession {
            state: SessionState::Idle,
            target_pid: 0,
            target_running: false,
            target_frozen: false,
        }
    }

    /// Current lifecycle state.
    pub fn state(&self) -> (s: SessionState)
        ensures
            s == self@.state,
    {
        self.state
    }

    /// Whether a session exists and has not reached a terminal state.
    pub fn is_active(&self) -> (b: bool)
        ensures
            b == self@.is_active(),
    {
        match self.state {
            SessionState::Launching => true,
            SessionState::Attaching => true,
            SessionState::Capturing => true,
            SessionState::Stopping => true,
            _ => false,
        }
    }

    /// Enter `Launching`: the host is about to spawn the target process in
    /// a suspended state. Refused (and a no-op) while a session is active.
    pub fn begin_launch(&mut self) -> (ok: bool)
        requires
            old(self)@.wf(),
        ensures
            final(self)@.wf(),
            old(self)@.can_begin() ==> ok && final(self)@ == (SessionView {
                state: SessionState::Launching,
                ..old(self)@
            }),
            !old(self)@.can_begin() ==> !ok && final(self)@ == old(self)@,
    {
        if self.is_active() {
            false
        } else {
            self.state = SessionState::Launching;
            true
        }
    }

    /// The host spawned the target, suspended, with OS process id `pid`:
    /// enter `Attaching`. Meaningful only while `Launching` with a real
    /// pid; otherwise a no-op.
    pub fn launch_succeeded(&mut self, pid: u32)
        requires
            old(self)@.wf(),
        ensures
            final(self)@.wf(),
            old(self)@.state == SessionState::Launching && pid != 0 ==> final(self)@
                == (SessionView {
                state: SessionState::Attaching,
                target_pid: pid,
                target_running: true,
                target_frozen: true,
            }),
            !(old(self)@.state == SessionState::Launching && pid != 0) ==> final(self)@ == old(
                self,
            )@,
    {
        if matches!(self.state, SessionState::Launching) && pid != 0 {
            self.state = SessionState::Attaching;
            self.target_pid = pid;
            self.target_running = true;
            self.target_frozen = true;
        }
    }

    /// The host could not spawn the target: the session ends in
    /// `StoppedFailed(LaunchFailure)` with all partial state rolled back.
    /// A no-op outside `Launching`.
    pub fn launch_failed(&mut self)
        requires
            old(self)@.wf(),
        ensures
            final(self)@.wf(),
            old(self)@.state == SessionState::Launching ==> final(self)@ == (SessionView {
                state: SessionState::StoppedFailed(FailReason::LaunchFailure),
                target_pid: 0,
                target_running: false,
                target_frozen: false,
            }),
            old(self)@.state != SessionState::Launching ==> final(self)@ == old(self)@,
    {
        if matches!(self.state, SessionState::Launching) {
            self.state = SessionState::StoppedFailed(FailReason::LaunchFailure);
            self.target_pid = 0;
            self.target_running = false;
            self.target_frozen = false;
        }
    }

    /// The tracing session is up, the consumer is reading, and the target
    /// has been released to run: enter `Capturing`. A no-op outside
    /// `Attaching`.
    pub fn attach_succeeded(&mut self)
        requires
            old(self)@.wf(),
        ensures
            final(self)@.wf(),
            old(self)@.state == SessionState::Attaching ==> final(self)@ == (SessionView {
                state: SessionState::Capturing,
                target_frozen: false,
                ..old(self)@
            }),
            old(self)@.state != SessionState::Attaching ==> final(self)@ == old(self)@,
    {
        if matches!(self.state, SessionState::Attaching) {
            self.state = SessionState::Capturing;
            self.target_frozen = false;
        }
    }

    /// Tracing could not be attached: the host terminated the suspended
    /// target and closed every opened handle, and the session ends in
    /// `StoppedFailed(AttachFailure)`. A no-op outside `Attaching`.
    pub fn attach_failed(&mut self)
        requires
            old(self)@.wf(),
        ensures
            final(self)@.wf(),
            old(self)@.state == SessionState::Attaching ==> final(self)@ == (SessionView {
                state: SessionState::StoppedFailed(FailReason::AttachFailure),
                target_pid: 0,
                target_running: false,
                target_frozen: false,
            }),
            old(self)@.state != SessionState::Attaching ==> final(self)@ == old(self)@,
    {
        if matches!(self.state, SessionState::Attaching) {
            self.state = SessionState::StoppedFailed(FailReason::AttachFailure);
            self.target_pid = 0;
            self.target_running = false;
            self.target_frozen = false;
        }
    }

    /// Begin a capture session that has no separate target process — the
    /// record source feeds the consumer directly — entering `Capturing`
    /// at once. Refused (and a no-op) while a session is active.
    pub fn begin_capture(&mut self) -> (ok: bool)
        requires
            old(self)@.wf(),
        ensures
            final(self)@.wf(),
            old(self)@.can_begin() ==> ok && final(self)@ == (SessionView {
                state: SessionState::Capturing,
                ..old(self)@
            }),
            !old(self)@.can_begin() ==> !ok && final(self)@ == old(self)@,
    {
        if self.is_active() {
            false
        } else {
            self.state = SessionState::Capturing;
            true
        }
    }

    /// The consumer observed that the target process exited: enter
    /// `Stopping`. A no-op outside `Capturing`.
    pub fn notify_target_exit(&mut self)
        requires
            old(self)@.wf(),
        ensures
            final(self)@.wf(),
            old(self)@.state == SessionState::Capturing ==> final(self)@ == (SessionView {
                state: SessionState::Stopping,
                target_running: false,
                target_frozen: false,
                ..old(self)@
            }),
            old(self)@.state != SessionState::Capturing ==> final(self)@ == old(self)@,
    {
        if matches!(self.state, SessionState::Capturing) {
            self.state = SessionState::Stopping;
            self.target_running = false;
            self.target_frozen = false;
        }
    }

    /// A stop was requested: deliver the stop signal and enter `Stopping`.
    /// A no-op outside `Capturing`.
    pub fn request_stop(&mut self)
        requires
            old(self)@.wf(),
        ensures
            final(self)@.wf(),
            old(self)@.state == SessionState::Capturing ==> final(self)@ == (SessionView {
                state: SessionState::Stopping,
                ..old(self)@
            }),
            old(self)@.state != SessionState::Capturing ==> final(self)@ == old(self)@,
    {
        if matches!(self.state, SessionState::Capturing) {
            self.state = SessionState::Stopping;
        }
    }

    /// The consumer has been joined (escalating to a forced handle close
    /// on a timed-out join is the host's degraded path, not a failure),
    /// the target terminated if still running, and every handle released:
    /// the session ends in `StoppedSuccess`. A no-op outside `Stopping`.
    pub fn finish_stop(&mut self)
        requires
            old(self)@.wf(),
        ensures
            final(self)@.wf(),
            old(self)@.state == SessionState::Stopping ==> final(self)@ == (SessionView {
                state: SessionState::StoppedSuccess,
                target_pid: 0,
                target_running: false,
                target_frozen: false,
            }),
            old(self)@.state != SessionState::Stopping ==> final(self)@ == old(self)@,
    {
        if matches!(self.state, SessionState::Stopping) {
            self.state = SessionState::StoppedSuccess;
            self.target_pid = 0;
            self.target_running = false;
            self.target_frozen = false;
        }
    }

    /// Suspend all threads of a live target. A no-op — safe, side-effect
    /// free, never failing — when no live target is owned.
    pub fn freeze_target(&mut self)
        requires
            old(self)@.wf(),
        ensures
            final(self)@.wf(),
            old(self)@.target_live() ==> final(self)@ == (SessionView {
                target_frozen: true,
                ..old(self)@
            }),
            !old(self)@.target_live() ==> final(self)@ == old(self)@,
    {
        if self.is_active() && self.target_pid != 0 && self.target_running {
            self.target_frozen = true;
        }
    }

    /// Resume all threads of a live target. A no-op when no live target
    /// is owned.
    pub fn unfreeze_target(&mut self)
        requires
            old(self)@.wf(),
        ensures
            final(self)@.wf(),
            old(self)@.target_live() ==> final(self)@ == (SessionView {
                target_frozen: false,
                ..old(self)@
            }),
            !old(self)@.target_live() ==> final(self)@ == old(self)@,
    {
        if self.is_active() && self.target_pid != 0 && self.target_running {
            self.target_frozen = false;
        }
    }

    /// Terminate a live target immediately. The consumer will observe the
    /// exit on its own and drive `Capturing -> Stopping`. A no-op when no
    /// live target is owned.
    pub fn kill_target(&mut self)
        requires
            old(self)@.wf(),
        ensures
            final(self)@.wf(),
            old(self)@.target_live() ==> final(self)@ == (SessionView {
                target_running: false,
                target_frozen: false,
                ..old(self)@
            }),
            !old(self)@.target_live() ==> final(self)@ == old(self)@,
    {
        if self.is_active() && self.target_pid != 0 && self.target_running {
            self.target_running = false;
            self.target_frozen = false;
        }
    }

    /// OS process id of the current target, or 0 when no session owns one.
    pub fn target_pid(&self) -> (pid: u32)
        ensures
            pid == self@.target_pid,
    {
        self.target_pid
    }

    /// Non-blocking liveness check of the current target; false when no
    /// session owns one.
    pub fn target_running(&self) -> (b: bool)
        ensures
            b == self@.target_running,
    {
        self.target_running
    }

    /// Whether the current target's threads are suspended; false when no
    /// session owns one.
    pub fn target_frozen(&self) -> (b: bool)
        ensures
            b == self@.target_frozen,
    {
        self.target_frozen
    }
}

} // verus!
