//! The control state behind a pipeline handle: whether a pipeline runs,
//! whether a shutdown signal can be sent to it, and the state it reports.
use crate::pipeline::PipelineState;
use crate::text::owned;
use vstd::prelude::*;

verus! {

/// The control state of a pipeline handle.
pub struct PipelineControl {
    running: bool,
    signal_armed: bool,
    state: PipelineState,
}

/// What a pipeline handle's control state holds.
pub struct ControlView {
    /// A pipeline has been started and not stopped or finished since.
    pub running: bool,
    /// A shutdown signal can be sent to the running pipeline.
    pub signal_armed: bool,
    /// The state reported to clients.
    pub state: PipelineState,
}

/// Why a pipeline could not be started.
#[derive(Debug, Clone, Copy, PartialEq, Eq, Structural)]
pub enum StartRejected {
    AlreadyRunning,
}

impl StartRejected {
    /// The message that reports this refusal.
    pub fn message(&self) -> (m: String)
        ensures
            m@ == "pipeline already running"@,
    {
        owned("pipeline already running")
    }
}

/// The control state of a handle with no pipeline.
pub open spec fn idle_control() -> ControlView {
    ControlView { running: false, signal_armed: false, state: PipelineState::Idle }
}

/// The control state of a handle whose pipeline was just started.
pub open spec fn running_control() -> ControlView {
    ControlView { running: true, signal_armed: true, state: PipelineState::Running }
}

/// Starting: refused while a pipeline runs, otherwise the handle runs.
pub open spec fn control_start(c: ControlView) -> (ControlView, Result<(), StartRejected>) {
    if c.running {
        (c, Err(StartRejected::AlreadyRunning))
    } else {
        (running_control(), Ok(()))
    }
}

/// Stopping: the handle is idle afterwards; a shutdown signal is sent
/// exactly when one was armed.
pub open spec fn control_stop(c: ControlView) -> (ControlView, bool) {
    (idle_control(), c.signal_armed)
}

/// The pipeline's task ended: the handle is idle.
pub open spec fn control_finish(c: ControlView) -> ControlView {
    idle_control()
}

/// The three parts of a control state agree: a pipeline runs exactly when a
/// shutdown signal is armed, and exactly when the reported state is running.
pub open spec fn control_consistent(c: ControlView) -> bool {
    &&& c.running == c.signal_armed
    &&& (c.running <==> c.state is Running)
    &&& !(c.state is Error)
}

impl View for PipelineControl {
    type V = ControlView;

    closed spec fn view(&self) -> ControlView {
        ControlView { running: self.running, signal_armed: self.signal_armed, state: self.state }
    }
}

impl PipelineControl {
    #[verifier::type_invariant]
    closed spec fn consistent(self) -> bool {
        control_consistent(self@)
    }

    /// A handle with no pipeline.
    pub fn new() -> (c: PipelineControl)
        ensures
            c@ == idle_control(),
    {
        PipelineControl { running: false, signal_armed: false, state: PipelineState::Idle }
    }

    /// Marks a pipeline as started, unless one already runs.
    pub fn try_start(&mut self) -> (r: Result<(), StartRejected>)
        ensures
            (final(self)@, r) == control_start(old(self)@),
            r is Err <==> old(self)@.running,
            final(self)@.running,
    {
        proof {
            use_type_invariant(&*self);
        }
        if self.running {
            Err(StartRejected::AlreadyRunning)
        } else {
            *self = PipelineControl { running: true, signal_armed: true, state: PipelineState::Running };
            Ok(())
        }
    }

    /// Marks the pipeline as stopped; returns whether a shutdown signal must
    /// be sent to it.
    pub fn stop(&mut self) -> (send_signal: bool)
        ensures
            (final(self)@, send_signal) == control_stop(old(self)@),
            send_signal == old(self)@.running,
            !final(self)@.running,
    {
        proof {
            use_type_invariant(&*self);
        }
        let armed = self.signal_armed;
        *self = PipelineControl { running: false, signal_armed: false, state: PipelineState::Idle };
        armed
    }

    /// Records that the pipeline's task has ended.
    pub fn finish(&mut self)
        ensures
            final(self)@ == control_finish(old(self)@),
    {
        *self = PipelineControl { running: false, signal_armed: false, state: PipelineState::Idle };
    }

    /// Whether a pipeline runs.
    pub fn is_running(&self) -> (r: bool)
        ensures
            r == self@.running,
            control_consistent(self@),
    {
        proof {
            use_type_invariant(self);
        }
        self.running
    }

    /// The state reported to clients.
    pub fn state(&self) -> (s: PipelineState)
        ensures
            s == self@.state,
    {
        match &self.state {
            PipelineState::Idle => PipelineState::Idle,
            PipelineState::Running => PipelineState::Running,
            PipelineState::Error(m) => PipelineState::Error(m.clone()),
        }
    }
}

/// Starting a handle is refused, with nothing changed, exactly when a
/// pipeline runs; otherwise the handle runs afterwards with a shutdown signal
/// armed; and after a stop a start always succeeds.
pub proof fn lemma_handle_start(c: ControlView)
    ensures
        (control_start(c).1 is Err) == c.running,
        c.running ==> control_start(c).0 == c,
        !c.running ==> control_start(c).0.running && control_start(c).0.signal_armed,
        control_start(control_stop(c).0).1 is Ok,
{
}

/// Stopping a handle leaves it idle; it signals the pipeline exactly when one
/// runs; a second stop signals nothing and changes nothing.
pub proof fn lemma_handle_stop(c: ControlView)
    requires
        control_consistent(c),
    ensures
        !control_stop(c).0.running,
        control_stop(c).0.state is Idle,
        control_stop(c).1 == c.running,
        control_stop(control_stop(c).0) == (control_stop(c).0, false),
{
}

/// Every transition keeps a control state consistent.
pub proof fn lemma_transitions_keep_consistency(c: ControlView)
    requires
        control_consistent(c),
    ensures
        control_consistent(control_start(c).0),
        control_consistent(control_stop(c).0),
        control_consistent(control_finish(c)),
{
}

/// A second start, with no stop or finish in between, is refused and
/// changes nothing.
pub proof fn lemma_second_start_refused(c: ControlView)
    ensures
        control_start(control_start(c).0).1 == Err::<(), StartRejected>(StartRejected::AlreadyRunning),
        control_start(control_start(c).0).0 == control_start(c).0,
{
}

/// After a stop, or after the pipeline's task ended, a start succeeds.
pub proof fn lemma_start_after_stop_or_finish(c: ControlView)
    ensures
        control_start(control_stop(c).0).1 is Ok,
        control_start(control_finish(c)).1 is Ok,
{
}

/// Stopping a running pipeline sends it a shutdown signal; stopping twice
/// sends none the second time.
pub proof fn lemma_stop_signals_once(c: ControlView)
    requires
        control_consistent(c),
        c.running,
    ensures
        control_stop(c).1,
        !control_stop(control_stop(c).0).1,
{
}

} // verus!
