use oncaptions_backend::config::{AudioBackend, PipelineMode};
use oncaptions_backend::ipc::{
    interpret_message, messages_for, parse_backend, reply_to_invalid, reply_to_start,
    reply_to_stop, reply_with_devices, Command, IncomingMessage, MessageError, OutgoingMessage,
    PipelineEvent,
};
use oncaptions_backend::pipeline::control::StartRejected;
use oncaptions_backend::pipeline::{PipelineError, PipelineStatus, TranscriptionEvent};
use oncaptions_backend::translation::{TranslationConfig, TranslationResult};

fn msg(t: &str) -> IncomingMessage {
    IncomingMessage {
        msg_type: t.to_string(),
        model_dir: None,
        language: None,
        translate: None,
        audio_backend: None,
        device_name: None,
        translation: None,
        pipeline_mode: None,
    }
}

#[test]
fn backends_are_parsed() {
    assert_eq!(parse_backend("alsa").unwrap(), AudioBackend::Alsa);
    assert_eq!(parse_backend("pulse").unwrap(), AudioBackend::Pulse);
    assert_eq!(parse_backend("jack").unwrap(), AudioBackend::Jack);
    assert_eq!(parse_backend("pipewire").unwrap(), AudioBackend::PipeWire);
    let e = parse_backend("coreaudio").unwrap_err();
    assert_eq!(e.message(), "unknown audio backend: coreaudio");
}

#[test]
fn start_message_with_defaults() {
    let mut m = msg("start_pipeline");
    m.model_dir = Some("/abs/path/to/models/ja".into());
    match interpret_message(m).unwrap() {
        Command::StartPipeline(s) => {
            assert_eq!(s.model_dir, "/abs/path/to/models/ja");
            assert_eq!(s.language, "auto");
            assert!(!s.translate);
            assert_eq!(s.audio_backend, AudioBackend::Alsa);
            assert!(s.device_name.is_none());
            assert!(!s.translation.enabled);
            assert_eq!(s.pipeline_mode, PipelineMode::Streaming);
        }
        other => panic!("unexpected {other:?}"),
    }
}

#[test]
fn start_message_with_everything() {
    let mut m = msg("start_pipeline");
    m.model_dir = Some("/abs/path/to/models/ja-reazonspeech".into());
    m.language = Some("ja".into());
    m.translate = Some(true);
    m.audio_backend = Some("pipewire".into());
    m.device_name = Some("alsa_output.monitor".into());
    m.pipeline_mode = Some("vad_offline".into());
    m.translation = Some(TranslationConfig { enabled: true, providers: vec![] });
    match interpret_message(m).unwrap() {
        Command::StartPipeline(s) => {
            assert_eq!(s.language, "ja");
            assert!(s.translate);
            assert_eq!(s.audio_backend, AudioBackend::PipeWire);
            assert_eq!(s.device_name.as_deref(), Some("alsa_output.monitor"));
            assert_eq!(s.pipeline_mode, PipelineMode::VadOffline);
            assert!(s.translation.enabled);
        }
        other => panic!("unexpected {other:?}"),
    }
    let mut m = msg("start_pipeline");
    m.model_dir = Some("/m".into());
    m.pipeline_mode = Some("bogus".into());
    assert!(matches!(interpret_message(m), Ok(Command::StartPipeline(s)) if s.pipeline_mode == PipelineMode::Streaming));
}

#[test]
fn start_message_refusals() {
    let mut m = msg("start_pipeline");
    m.model_dir = Some("relative/dir".into());
    let e = interpret_message(m).unwrap_err();
    assert!(matches!(e, MessageError::RelativeModelDir));
    assert_eq!(e.message(), "model_dir must be absolute");
    let e = interpret_message(msg("start_pipeline")).unwrap_err();
    assert!(matches!(e, MessageError::RelativeModelDir));
    let mut m = msg("start_pipeline");
    m.model_dir = Some("relative".into());
    m.audio_backend = Some("oss".into());
    let e = interpret_message(m).unwrap_err();
    assert_eq!(e.message(), "unknown audio backend: oss");
}

#[test]
fn other_messages() {
    assert!(matches!(interpret_message(msg("stop_pipeline")), Ok(Command::StopPipeline)));
    assert!(matches!(interpret_message(msg("list_devices")), Ok(Command::ListDevices)));
    let e = interpret_message(msg("dance")).unwrap_err();
    assert_eq!(e.message(), "unknown message type: dance");
}

#[test]
fn replies() {
    assert!(matches!(reply_to_start(Ok(())), OutgoingMessage::PipelineStatus { state } if state == "running"));
    match reply_to_start(Err(StartRejected::AlreadyRunning)) {
        OutgoingMessage::Error { code, message } => {
            assert_eq!(code, "start_failed");
            assert_eq!(message, "pipeline already running");
        }
        other => panic!("unexpected {other:?}"),
    }
    assert!(matches!(reply_to_stop(), OutgoingMessage::PipelineStatus { state } if state == "stopped"));
    assert!(matches!(reply_with_devices(vec![]), OutgoingMessage::DeviceList(d) if d.is_empty()));
    assert!(matches!(reply_to_invalid("bad".into()),
        OutgoingMessage::Error { code, message } if code == "invalid_message" && message == "bad"));
}

#[test]
fn pipeline_errors_are_followed_by_an_error_status() {
    let ms = messages_for(PipelineEvent::Error(PipelineError {
        code: "device_lost".into(),
        message: "audio device disconnected".into(),
    }));
    assert_eq!(ms.len(), 2);
    assert!(matches!(&ms[0], OutgoingMessage::Error { code, message }
        if code == "device_lost" && message == "audio device disconnected"));
    assert!(matches!(&ms[1], OutgoingMessage::PipelineStatus { state } if state == "error"));
    let ms = messages_for(PipelineEvent::Transcription(TranscriptionEvent { text: "hi".into(), is_final: true }));
    assert!(matches!(ms.as_slice(), [OutgoingMessage::Transcription { text, is_final: true }] if text == "hi"));
    let ms = messages_for(PipelineEvent::Status(PipelineStatus { state: "running".into() }));
    assert!(matches!(ms.as_slice(), [OutgoingMessage::PipelineStatus { state }] if state == "running"));
    let tr = TranslationResult {
        original: "a".into(),
        provider_name: "p".into(),
        provider_display: "P".into(),
        text: "b".into(),
        target_lang: "en".into(),
    };
    let ms = messages_for(PipelineEvent::Translation(tr));
    assert!(matches!(ms.as_slice(), [OutgoingMessage::Translation(t)] if t.text == "b"));
}
