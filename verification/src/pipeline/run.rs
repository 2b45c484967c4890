//! The decisions of one pipeline run.  The application performs the work
//! (model validation, audio capture, recognition, translation, messaging)
//! and reports each outcome as an event; the run answers with the actions to
//! take next.
use crate::audio::AudioStreamError;
use crate::config::{mode_name, PipelineSettings};
use crate::pipeline::recognize::Transcript;
use crate::pipeline::{PipelineError, TranscriptionEvent};
use crate::text::{concat, owned};
use vstd::prelude::*;

verus! {

/// How far a run has come.
#[derive(Debug, Clone, Copy, PartialEq, Eq, Structural)]
pub enum RunPhase {
    /// The model is being checked in a separate process.
    Validating,
    /// Audio capture is being opened.
    StartingCapture,
    /// The recognizer is loading its model.
    LoadingModel,
    /// Audio is being recognized.
    Running,
    /// The run is over.
    Stopped,
}

/// One run of the pipeline.
pub struct PipelineRun {
    phase: RunPhase,
    translation_enabled: bool,
    source_lang: String,
    failure: Option<String>,
}

/// What a run holds.
pub struct RunView {
    pub phase: RunPhase,
    pub translation_enabled: bool,
    pub source_lang: Seq<char>,
    /// Why the run ended in failure, where it did: audio capture could not be
    /// opened (the run then ends with this error rather than normally).
    pub failure: Option<Seq<char>>,
}

impl View for PipelineRun {
    type V = RunView;

    closed spec fn view(&self) -> RunView {
        RunView {
            phase: self.phase,
            translation_enabled: self.translation_enabled,
            source_lang: self.source_lang@,
            failure: crate::text::opt_string(self.failure),
        }
    }
}

/// An outcome of work the application did for the run.
#[derive(Debug)]
pub enum RunEvent {
    /// The model check finished (with its failure message).
    Validated(Result<(), String>),
    /// Audio capture opened at the given sample rate, or failed.
    CaptureStarted(Result<u32, String>),
    /// The recognizer reported on its model; `None` where it exited without a word.
    ModelStarted(Option<Result<(), String>>),
    /// The recognizer produced text.
    Recognized(Transcript),
    /// The capture stream reported an error.
    AudioFault(AudioStreamError),
    /// The shutdown signal changed to the given value.
    ShutdownChanged(bool),
}

/// Work the run asks the application to do.
#[derive(Debug, Clone)]
pub enum RunAction {
    /// Check the model of `model_dir` for `mode` in a separate process.
    ValidateModel { mode: String, model_dir: String },
    /// Open audio capture.
    StartCapture,
    /// Start the recognizer on audio at `sample_hz`.
    StartRecognizer { sample_hz: u32 },
    /// Start the translation worker.
    StartTranslation,
    /// Queue `text`, written in `source_lang`, for translation.
    RequestTranslation { text: String, source_lang: String },
    /// Send recognized text to the client.
    Emit(TranscriptionEvent),
    /// Report a failure to the client.
    Report(PipelineError),
    /// Close audio capture.
    StopCapture,
    /// Tell the recognizer and translation workers to stop.
    StopWorkers,
}

/// The content of an action.
pub enum ActionView {
    ValidateModel(Seq<char>, Seq<char>),
    StartCapture,
    StartRecognizer(u32),
    StartTranslation,
    RequestTranslation(Seq<char>, Seq<char>),
    Emit(Seq<char>, bool),
    Report(Seq<char>, Seq<char>),
    StopCapture,
    StopWorkers,
}

impl View for RunAction {
    type V = ActionView;

    open spec fn view(&self) -> ActionView {
        match self {
            RunAction::ValidateModel { mode, model_dir } => ActionView::ValidateModel(
                mode@,
                model_dir@,
            ),
            RunAction::StartCapture => ActionView::StartCapture,
            RunAction::StartRecognizer { sample_hz } => ActionView::StartRecognizer(*sample_hz),
            RunAction::StartTranslation => ActionView::StartTranslation,
            RunAction::RequestTranslation { text, source_lang } => ActionView::RequestTranslation(
                text@,
                source_lang@,
            ),
            RunAction::Emit(e) => ActionView::Emit(e.text@, e.is_final),
            RunAction::Report(e) => ActionView::Report(e.code@, e.message@),
            RunAction::StopCapture => ActionView::StopCapture,
            RunAction::StopWorkers => ActionView::StopWorkers,
        }
    }
}

/// The views of a list of actions.
pub open spec fn actions_view(a: Seq<RunAction>) -> Seq<ActionView> {
    a.map_values(|x: RunAction| x@)
}

/// `s` with a new phase.
pub open spec fn with_phase(s: RunView, p: RunPhase) -> RunView {
    RunView { phase: p, ..s }
}

/// A run's reaction to an event: its next state and the actions to take.
/// Events a phase does not expect change nothing.
pub open spec fn run_step(s: RunView, e: RunEvent) -> (RunView, Seq<ActionView>) {
    match (s.phase, e) {
        (RunPhase::Validating, RunEvent::Validated(Ok(()))) => (
            with_phase(s, RunPhase::StartingCapture),
            seq![ActionView::StartCapture],
        ),
        (RunPhase::Validating, RunEvent::Validated(Err(m))) => (
            with_phase(s, RunPhase::Stopped),
            seq![ActionView::Report("model_load_failed"@, "model validation failed: "@ + m@)],
        ),
        (RunPhase::StartingCapture, RunEvent::CaptureStarted(Ok(hz))) => (
            with_phase(s, RunPhase::LoadingModel),
            seq![ActionView::StartRecognizer(hz)],
        ),
        (RunPhase::StartingCapture, RunEvent::CaptureStarted(Err(m))) => (
            RunView { phase: RunPhase::Stopped, failure: Some(m@), ..s },
            seq![ActionView::Report("audio_capture_failed"@, "audio capture failed: "@ + m@)],
        ),
        (RunPhase::LoadingModel, RunEvent::ModelStarted(Some(Ok(())))) => (
            with_phase(s, RunPhase::Running),
            seq![ActionView::StartTranslation],
        ),
        (RunPhase::LoadingModel, RunEvent::ModelStarted(Some(Err(m)))) => (
            with_phase(s, RunPhase::Stopped),
            seq![
                ActionView::Report("model_load_failed"@, "model load failed: "@ + m@),
                ActionView::StopCapture,
                ActionView::StopWorkers,
            ],
        ),
        (RunPhase::LoadingModel, RunEvent::ModelStarted(None)) => (
            with_phase(s, RunPhase::Stopped),
            seq![
                ActionView::Report("model_load_failed"@, "model thread exited unexpectedly"@),
                ActionView::StopCapture,
                ActionView::StopWorkers,
            ],
        ),
        (RunPhase::Running, RunEvent::Recognized(t)) => (
            s,
            if t.is_final && s.translation_enabled {
                seq![
                    ActionView::RequestTranslation(t.text@, s.source_lang),
                    ActionView::Emit(t.text@, t.is_final),
                ]
            } else {
                seq![ActionView::Emit(t.text@, t.is_final)]
            },
        ),
        (RunPhase::Running, RunEvent::AudioFault(AudioStreamError::DeviceLost)) => (
            with_phase(s, RunPhase::Stopped),
            seq![
                ActionView::Report("device_lost"@, "audio device disconnected"@),
                ActionView::StopCapture,
                ActionView::StopWorkers,
                ActionView::StopCapture,
            ],
        ),
        (RunPhase::Running, RunEvent::ShutdownChanged(true)) => (
            with_phase(s, RunPhase::Stopped),
            seq![ActionView::StopWorkers, ActionView::StopCapture],
        ),
        _ => (s, Seq::empty()),
    }
}

/// A report with the given code and message.
fn report(code: &str, message: String) -> (a: RunAction)
    ensures
        a@ == ActionView::Report(code@, message@),
{
    RunAction::Report(PipelineError { code: owned(code), message })
}

impl PipelineRun {
    /// A run with `settings`, and its first action: checking the model.
    pub fn start(settings: &PipelineSettings) -> (r: (PipelineRun, RunAction))
        ensures
            r.0@ == (RunView {
                phase: RunPhase::Validating,
                translation_enabled: settings.translation.enabled,
                source_lang: settings.language@,
                failure: None,
            }),
            r.1@ == ActionView::ValidateModel(
                mode_name(settings.pipeline_mode),
                settings.model_dir@,
            ),
    {
        let run = PipelineRun {
            phase: RunPhase::Validating,
            translation_enabled: settings.translation.enabled,
            source_lang: settings.language.clone(),
            failure: None,
        };
        let first = RunAction::ValidateModel {
            mode: owned(settings.pipeline_mode.as_str()),
            model_dir: settings.model_dir.clone(),
        };
        (run, first)
    }

    /// How far this run has come.
    pub fn phase(&self) -> (p: RunPhase)
        ensures
            p == self@.phase,
    {
        self.phase
    }

    /// Why the run ended in failure, where it did.
    pub fn failure(&self) -> (f: Option<String>)
        ensures
            crate::text::opt_string(f) == self@.failure,
    {
        match &self.failure {
            Some(m) => Some(m.clone()),
            None => None,
        }
    }

    /// Whether this run is over.
    pub fn is_stopped(&self) -> (r: bool)
        ensures
            r == (self@.phase == RunPhase::Stopped),
    {
        self.phase == RunPhase::Stopped
    }

    /// Reacts to `event`: updates the run and returns the actions to take, in order.
    pub fn handle(&mut self, event: RunEvent) -> (actions: Vec<RunAction>)
        ensures
            (final(self)@, actions_view(actions@)) == run_step(old(self)@, event),
    {
        let ghost e0 = event;
        let mut out: Vec<RunAction> = Vec::new();
        match (self.phase, event) {
            (RunPhase::Validating, RunEvent::Validated(Ok(()))) => {
                self.phase = RunPhase::StartingCapture;
                out.push(RunAction::StartCapture);
            },
            (RunPhase::Validating, RunEvent::Validated(Err(m))) => {
                self.phase = RunPhase::Stopped;
                out.push(report("model_load_failed", concat("model validation failed: ", m.as_str())));
            },
            (RunPhase::StartingCapture, RunEvent::CaptureStarted(Ok(hz))) => {
                self.phase = RunPhase::LoadingModel;
                out.push(RunAction::StartRecognizer { sample_hz: hz });
            },
            (RunPhase::StartingCapture, RunEvent::CaptureStarted(Err(m))) => {
                self.phase = RunPhase::Stopped;
                out.push(report("audio_capture_failed", concat("audio capture failed: ", m.as_str())));
                self.failure = Some(m);
            },
            (RunPhase::LoadingModel, RunEvent::ModelStarted(Some(Ok(())))) => {
                self.phase = RunPhase::Running;
                out.push(RunAction::StartTranslation);
            },
            (RunPhase::LoadingModel, RunEvent::ModelStarted(Some(Err(m)))) => {
                self.phase = RunPhase::Stopped;
                out.push(report("model_load_failed", concat("model load failed: ", m.as_str())));
                out.push(RunAction::StopCapture);
                out.push(RunAction::StopWorkers);
            },
            (RunPhase::LoadingModel, RunEvent::ModelStarted(None)) => {
                self.phase = RunPhase::Stopped;
                out.push(report("model_load_failed", owned("model thread exited unexpectedly")));
                out.push(RunAction::StopCapture);
                out.push(RunAction::StopWorkers);
            },
            (RunPhase::Running, RunEvent::Recognized(t)) => {
                if t.is_final && self.translation_enabled {
                    out.push(
                        RunAction::RequestTranslation {
                            text: t.text.clone(),
                            source_lang: self.source_lang.clone(),
                        },
                    );
                }
                out.push(RunAction::Emit(TranscriptionEvent { text: t.text, is_final: t.is_final }));
            },
            (RunPhase::Running, RunEvent::AudioFault(AudioStreamError::DeviceLost)) => {
                self.phase = RunPhase::Stopped;
                out.push(report("device_lost", owned("audio device disconnected")));
                out.push(RunAction::StopCapture);
                out.push(RunAction::StopWorkers);
                out.push(RunAction::StopCapture);
            },
            (RunPhase::Running, RunEvent::ShutdownChanged(true)) => {
                self.phase = RunPhase::Stopped;
                out.push(RunAction::StopWorkers);
                out.push(RunAction::StopCapture);
            },
            _ => {},
        }
        assert(actions_view(out@) =~= run_step(old(self)@, e0).1);
        out
    }
}

/// A rank that orders the phases of a run.
pub open spec fn phase_rank(p: RunPhase) -> nat {
    match p {
        RunPhase::Validating => 0,
        RunPhase::StartingCapture => 1,
        RunPhase::LoadingModel => 2,
        RunPhase::Running => 3,
        RunPhase::Stopped => 4,
    }
}

/// A stopped run stays stopped and takes no action, whatever happens.
pub proof fn lemma_stopped_is_final(s: RunView, e: RunEvent)
    requires
        s.phase == RunPhase::Stopped,
    ensures
        run_step(s, e).0 == s,
        run_step(s, e).1.len() == 0,
{
}

/// A run never goes back to an earlier phase, and keeps its translation
/// setting and source language.
pub proof fn lemma_phases_only_advance(s: RunView, e: RunEvent)
    ensures
        phase_rank(run_step(s, e).0.phase) >= phase_rank(s.phase),
        run_step(s, e).0.translation_enabled == s.translation_enabled,
        run_step(s, e).0.source_lang == s.source_lang,
{
}

/// The event tells that audio capture could not be opened.
pub open spec fn is_capture_failure(e: RunEvent) -> bool {
    match e {
        RunEvent::CaptureStarted(Err(_)) => true,
        _ => false,
    }
}

/// A run that cannot open audio capture reports `audio_capture_failed`, as
/// its only action, and ends in failure with the capture's error.
pub proof fn lemma_capture_failure_fails_the_run(s: RunView, m: String)
    requires
        s.phase == RunPhase::StartingCapture,
    ensures
        run_step(s, RunEvent::CaptureStarted(Err(m))).0.phase == RunPhase::Stopped,
        run_step(s, RunEvent::CaptureStarted(Err(m))).0.failure == Some(m@),
        run_step(s, RunEvent::CaptureStarted(Err(m))).1 == seq![
            ActionView::Report("audio_capture_failed"@, "audio capture failed: "@ + m@),
        ],
{
}

/// No other event makes a run fail, and a failure, once there, stays.
pub proof fn lemma_only_capture_failure_fails(s: RunView, e: RunEvent)
    requires
        !(s.phase == RunPhase::StartingCapture && is_capture_failure(e)),
    ensures
        run_step(s, e).0.failure == s.failure,
{
}

/// A failure is reported only when the run stops, and then first, as the
/// only report.
pub proof fn lemma_reports_stop_the_run(s: RunView, e: RunEvent)
    ensures
        forall|i: int|
            0 <= i < run_step(s, e).1.len() && (#[trigger] run_step(s, e).1[i]) is Report ==> i == 0
                && run_step(s, e).0.phase == RunPhase::Stopped,
{
}

/// While running, recognized text is sent to the client exactly once, as
/// the last action; it is queued for translation, with the run's source
/// language, exactly when it is final and translation is enabled.
pub proof fn lemma_recognized_text_is_emitted(s: RunView, t: Transcript)
    requires
        s.phase == RunPhase::Running,
    ensures
        ({
            let (n, a) = run_step(s, RunEvent::Recognized(t));
            &&& n == s
            &&& a.len() >= 1
            &&& a.last() == ActionView::Emit(t.text@, t.is_final)
            &&& (a.len() == 2) == (t.is_final && s.translation_enabled)
            &&& a.len() == 2 ==> a[0] == ActionView::RequestTranslation(t.text@, s.source_lang)
        }),
{
}

/// While running, capture errors other than a lost device are tolerated;
/// a lost device stops the run with a `device_lost` report.
pub proof fn lemma_audio_faults(s: RunView, f: AudioStreamError)
    requires
        s.phase == RunPhase::Running,
    ensures
        f is DeviceLost ==> run_step(s, RunEvent::AudioFault(f)).0.phase == RunPhase::Stopped
            && run_step(s, RunEvent::AudioFault(f)).1[0] == ActionView::Report(
            "device_lost"@,
            "audio device disconnected"@,
        ),
        !(f is DeviceLost) ==> run_step(s, RunEvent::AudioFault(f)) == (s, Seq::<ActionView>::empty()),
{
}

/// A run whose model check passes, whose capture opens at some rate and
/// whose recognizer loads goes from checking to running in three steps:
/// it opens capture, starts the recognizer at the rate capture reported,
/// then starts translation, and it neither fails nor reports anything.
pub proof fn lemma_startup_sequence(s: RunView, hz: u32)
    requires
        s.phase == RunPhase::Validating,
    ensures
        ({
            let (s1, a1) = run_step(s, RunEvent::Validated(Ok(())));
            let (s2, a2) = run_step(s1, RunEvent::CaptureStarted(Ok(hz)));
            let (s3, a3) = run_step(s2, RunEvent::ModelStarted(Some(Ok(()))));
            &&& a1 == seq![ActionView::StartCapture]
            &&& a2 == seq![ActionView::StartRecognizer(hz)]
            &&& a3 == seq![ActionView::StartTranslation]
            &&& s3.phase == RunPhase::Running
            &&& s3.failure == s.failure
            &&& s3.translation_enabled == s.translation_enabled
            &&& s3.source_lang == s.source_lang
        }),
{
}

/// A running run that is told to shut down stops its workers, then closes
/// capture, and is over, without a report or a failure.
pub proof fn lemma_shutdown_stops_the_run(s: RunView)
    requires
        s.phase == RunPhase::Running,
    ensures
        run_step(s, RunEvent::ShutdownChanged(true)).0.phase == RunPhase::Stopped,
        run_step(s, RunEvent::ShutdownChanged(true)).0.failure == s.failure,
        run_step(s, RunEvent::ShutdownChanged(true)).1 == seq![
            ActionView::StopWorkers,
            ActionView::StopCapture,
        ],
        run_step(s, RunEvent::ShutdownChanged(false)) == (s, Seq::<ActionView>::empty()),
{
}

} // verus!
