use oncaptions_backend::audio::AudioStreamError;
use oncaptions_backend::config::{ModelPaths, PipelineMode, PipelineSettings};
use oncaptions_backend::pipeline::control::StartRejected;
use oncaptions_backend::pipeline::model_check::{
    model_load_failure, model_panic_msg, required_model_files,
};
use oncaptions_backend::pipeline::recognize::{recognized, take_chunks, STREAM_CHUNK};
use oncaptions_backend::pipeline::run::RunPhase;
use oncaptions_backend::pipeline::vad_model::{vad_model_candidates, vad_model_relative, SearchBase};
use oncaptions_backend::pipeline::{
    check_model, panic_msg, validate_model, PipelineControl, PipelineRun, PipelineState,
    RunAction, RunEvent, Transcript,
};

#[test]
fn second_start_is_refused_until_stopped() {
    let mut c = PipelineControl::new();
    assert!(!c.is_running());
    assert_eq!(c.try_start(), Ok(()));
    assert!(c.is_running());
    assert_eq!(c.state(), PipelineState::Running);
    assert_eq!(c.try_start(), Err(StartRejected::AlreadyRunning));
    assert_eq!(StartRejected::AlreadyRunning.message(), "pipeline already running");
    assert!(c.stop());
    assert!(!c.is_running());
    assert_eq!(c.state(), PipelineState::Idle);
    assert!(!c.stop());
    assert_eq!(c.try_start(), Ok(()));
    c.finish();
    assert!(!c.is_running());
    assert_eq!(c.try_start(), Ok(()));
}

fn settings(mode: PipelineMode, translate: bool) -> PipelineSettings {
    let mut s = PipelineSettings::default();
    s.model_dir = "/m/ja".to_string();
    s.language = "ja".to_string();
    s.pipeline_mode = mode;
    s.translation.enabled = translate;
    s
}

fn running_run(translate: bool) -> PipelineRun {
    let (mut run, _) = PipelineRun::start(&settings(PipelineMode::Streaming, translate));
    assert!(run.handle(RunEvent::Validated(Ok(()))).len() == 1);
    assert!(run.handle(RunEvent::CaptureStarted(Ok(16000))).len() == 1);
    assert!(run.handle(RunEvent::ModelStarted(Some(Ok(())))).len() == 1);
    assert_eq!(run.phase(), RunPhase::Running);
    run
}

#[test]
fn run_starts_by_validating_the_model() {
    let (run, first) = PipelineRun::start(&settings(PipelineMode::VadOffline, false));
    assert_eq!(run.phase(), RunPhase::Validating);
    match first {
        RunAction::ValidateModel { mode, model_dir } => {
            assert_eq!(mode, "vad_offline");
            assert_eq!(model_dir, "/m/ja");
        }
        other => panic!("unexpected first action {other:?}"),
    }
}

#[test]
fn run_goes_through_its_phases() {
    let (mut run, _) = PipelineRun::start(&settings(PipelineMode::Streaming, false));
    let a = run.handle(RunEvent::Validated(Ok(())));
    assert!(matches!(a.as_slice(), [RunAction::StartCapture]));
    let a = run.handle(RunEvent::CaptureStarted(Ok(16000)));
    assert!(matches!(a.as_slice(), [RunAction::StartRecognizer { sample_hz: 16000 }]));
    let a = run.handle(RunEvent::ModelStarted(Some(Ok(()))));
    assert!(matches!(a.as_slice(), [RunAction::StartTranslation]));
    let a = run.handle(RunEvent::ShutdownChanged(false));
    assert!(a.is_empty());
    let a = run.handle(RunEvent::ShutdownChanged(true));
    assert!(matches!(a.as_slice(), [RunAction::StopWorkers, RunAction::StopCapture]));
    assert!(run.is_stopped());
    let a = run.handle(RunEvent::Recognized(Transcript { text: "x".into(), is_final: true }));
    assert!(a.is_empty());
}

#[test]
fn failed_validation_reports_model_load_failed() {
    let (mut run, _) = PipelineRun::start(&settings(PipelineMode::Streaming, false));
    let a = run.handle(RunEvent::Validated(Err("missing model file".into())));
    match a.as_slice() {
        [RunAction::Report(e)] => {
            assert_eq!(e.code, "model_load_failed");
            assert_eq!(e.message, "model validation failed: missing model file");
        }
        other => panic!("unexpected actions {other:?}"),
    }
    assert!(run.is_stopped());
}

#[test]
fn failed_capture_reports_audio_capture_failed() {
    let (mut run, _) = PipelineRun::start(&settings(PipelineMode::Streaming, false));
    run.handle(RunEvent::Validated(Ok(())));
    let a = run.handle(RunEvent::CaptureStarted(Err("no device".into())));
    match a.as_slice() {
        [RunAction::Report(e)] => {
            assert_eq!(e.code, "audio_capture_failed");
            assert_eq!(e.message, "audio capture failed: no device");
        }
        other => panic!("unexpected actions {other:?}"),
    }
    assert!(run.is_stopped());
    assert_eq!(run.failure(), Some("no device".to_string()));
}

#[test]
fn only_capture_failures_fail_the_run() {
    let (mut run, _) = PipelineRun::start(&settings(PipelineMode::Streaming, false));
    run.handle(RunEvent::Validated(Err("bad model".into())));
    assert!(run.is_stopped());
    assert_eq!(run.failure(), None);
    let mut run = running_run(false);
    run.handle(RunEvent::AudioFault(AudioStreamError::DeviceLost));
    assert_eq!(run.failure(), None);
    let mut run = running_run(false);
    run.handle(RunEvent::ShutdownChanged(true));
    assert_eq!(run.failure(), None);
}

#[test]
fn vad_model_search_order() {
    let c = vad_model_candidates(true, true);
    let v: Vec<(SearchBase, &str)> = c.iter().map(|c| (c.base, c.up.as_str())).collect();
    assert_eq!(
        v,
        vec![
            (SearchBase::WorkingDir, ""),
            (SearchBase::ExeDir, ""),
            (SearchBase::ExeDir, ".."),
            (SearchBase::ExeDir, "../.."),
            (SearchBase::ExeDir, "../../.."),
        ]
    );
    assert_eq!(vad_model_candidates(false, true).len(), 4);
    assert_eq!(vad_model_candidates(true, false).len(), 1);
    assert!(vad_model_candidates(false, false).is_empty());
    assert_eq!(vad_model_relative(), "models/silero_vad/silero_vad.onnx");
}

#[test]
fn model_thread_exit_stops_the_run() {
    let (mut run, _) = PipelineRun::start(&settings(PipelineMode::Streaming, false));
    run.handle(RunEvent::Validated(Ok(())));
    run.handle(RunEvent::CaptureStarted(Ok(48000)));
    let a = run.handle(RunEvent::ModelStarted(None));
    match a.as_slice() {
        [RunAction::Report(e), RunAction::StopCapture, RunAction::StopWorkers] => {
            assert_eq!(e.code, "model_load_failed");
            assert_eq!(e.message, "model thread exited unexpectedly");
        }
        other => panic!("unexpected actions {other:?}"),
    }
    let (mut run, _) = PipelineRun::start(&settings(PipelineMode::Streaming, false));
    run.handle(RunEvent::Validated(Ok(())));
    run.handle(RunEvent::CaptureStarted(Ok(48000)));
    let a = run.handle(RunEvent::ModelStarted(Some(Err("bad".into()))));
    match a.as_slice() {
        [RunAction::Report(e), RunAction::StopCapture, RunAction::StopWorkers] => {
            assert_eq!(e.message, "model load failed: bad");
        }
        other => panic!("unexpected actions {other:?}"),
    }
}

#[test]
fn final_text_is_translated_only_when_enabled() {
    let mut run = running_run(true);
    let a = run.handle(RunEvent::Recognized(Transcript { text: "こんにちは".into(), is_final: true }));
    match a.as_slice() {
        [RunAction::RequestTranslation { text, source_lang }, RunAction::Emit(e)] => {
            assert_eq!(text, "こんにちは");
            assert_eq!(source_lang, "ja");
            assert_eq!(e.text, "こんにちは");
            assert!(e.is_final);
        }
        other => panic!("unexpected actions {other:?}"),
    }
    let a = run.handle(RunEvent::Recognized(Transcript { text: "こん".into(), is_final: false }));
    assert!(matches!(a.as_slice(), [RunAction::Emit(e)] if !e.is_final && e.text == "こん"));
    let mut run = running_run(false);
    let a = run.handle(RunEvent::Recognized(Transcript { text: "hi".into(), is_final: true }));
    assert!(matches!(a.as_slice(), [RunAction::Emit(e)] if e.is_final));
}

#[test]
fn lost_device_stops_other_faults_do_not() {
    let mut run = running_run(false);
    assert!(run.handle(RunEvent::AudioFault(AudioStreamError::Xrun)).is_empty());
    assert!(run.handle(RunEvent::AudioFault(AudioStreamError::RealtimeDenied)).is_empty());
    assert!(run.handle(RunEvent::AudioFault(AudioStreamError::Other("x".into()))).is_empty());
    assert_eq!(run.phase(), RunPhase::Running);
    let a = run.handle(RunEvent::AudioFault(AudioStreamError::DeviceLost));
    match a.as_slice() {
        [RunAction::Report(e), RunAction::StopCapture, RunAction::StopWorkers, RunAction::StopCapture] => {
            assert_eq!(e.code, "device_lost");
            assert_eq!(e.message, "audio device disconnected");
        }
        other => panic!("unexpected actions {other:?}"),
    }
    assert!(run.is_stopped());
}

#[test]
fn chunks_cover_the_buffer() {
    let mut buf: Vec<u32> = (0..7).collect();
    let chunks = take_chunks(&mut buf, 3);
    assert_eq!(chunks, vec![vec![0, 1, 2], vec![3, 4, 5]]);
    assert_eq!(buf, vec![6]);
    let mut buf: Vec<f32> = vec![0.5; STREAM_CHUNK * 2 + 10];
    let chunks = take_chunks(&mut buf, STREAM_CHUNK);
    assert_eq!(chunks.len(), 2);
    assert!(chunks.iter().all(|c| c.len() == 3200));
    assert_eq!(buf.len(), 10);
    let mut small: Vec<u8> = vec![1, 2];
    assert!(take_chunks(&mut small, 3).is_empty());
    assert_eq!(small, vec![1, 2]);
}

#[test]
fn empty_results_are_dropped() {
    assert!(recognized(None, true).is_none());
    assert!(recognized(Some(String::new()), false).is_none());
    let t = recognized(Some("text".into()), true).unwrap();
    assert_eq!(t.text, "text");
    assert!(t.is_final);
}

#[test]
fn model_check_reports_first_missing_file() {
    let files = required_model_files(&ModelPaths::in_dir("/m"));
    let names: Vec<&str> = files.iter().map(|f| f.name.as_str()).collect();
    assert_eq!(names, vec!["encoder.onnx", "decoder.onnx", "joiner.onnx", "tokens.txt"]);
    assert_eq!(
        check_model(&files, &vec![true, false, false, true], "streaming"),
        Err("missing model file: decoder.onnx at /m/decoder.onnx".to_string())
    );
    assert_eq!(
        check_model(&files, &vec![true; 4], "vad_offline"),
        Ok(PipelineMode::VadOffline)
    );
    assert_eq!(
        check_model(&files, &vec![true; 4], "offline"),
        Err("unknown mode: offline".to_string())
    );
    assert_eq!(
        model_load_failure(PipelineMode::Streaming),
        "OnlineRecognizer: model load failed (wrong model type?)"
    );
}

#[test]
fn validation_outcome_messages() {
    assert_eq!(validate_model(true, "ignored", "exit status: 0"), Ok(()));
    assert_eq!(
        validate_model(false, "", "exit status: 1"),
        Err("model validation failed (exit code exit status: 1)".to_string())
    );
    assert_eq!(
        validate_model(false, "  missing model file: tokens.txt at /m/tokens.txt\n", "exit status: 1"),
        Err("missing model file: tokens.txt at /m/tokens.txt".to_string())
    );
}

#[test]
fn panic_messages() {
    assert_eq!(panic_msg("VAD model", Some("boom")), "VAD model panicked: boom");
    assert_eq!(
        panic_msg("ASR model", None),
        "ASR model panicked (unknown cause, likely model format mismatch)"
    );
    assert_eq!(model_panic_msg(Some("bad")), "model panic: bad");
    assert_eq!(
        model_panic_msg(None),
        "model panic: unknown error (model format mismatch?)"
    );
}
