use oncaptions_backend::config::{AudioBackend, ModelPaths, PipelineMode, PipelineSettings};

#[test]
fn mode_names_round_trip() {
    for m in [PipelineMode::Streaming, PipelineMode::VadOffline] {
        assert_eq!(PipelineMode::from_str(m.as_str()), Some(m));
    }
    assert_eq!(PipelineMode::Streaming.as_str(), "streaming");
    assert_eq!(PipelineMode::VadOffline.as_str(), "vad_offline");
}

#[test]
fn unknown_mode_names_are_rejected() {
    assert_eq!(PipelineMode::from_str("Streaming"), None);
    assert_eq!(PipelineMode::from_str(""), None);
    assert_eq!(PipelineMode::from_str("vad"), None);
}

#[test]
fn model_paths_follow_the_directory_layout() {
    let p = ModelPaths::in_dir("/abs/models/ja");
    assert_eq!(p.encoder, "/abs/models/ja/encoder.onnx");
    assert_eq!(p.decoder, "/abs/models/ja/decoder.onnx");
    assert_eq!(p.joiner, "/abs/models/ja/joiner.onnx");
    assert_eq!(p.tokens, "/abs/models/ja/tokens.txt");
}

#[test]
fn default_settings() {
    let s = PipelineSettings::default();
    assert_eq!(s.model_dir, "");
    assert_eq!(s.language, "auto");
    assert!(!s.translate);
    assert_eq!(s.audio_backend, AudioBackend::PipeWire);
    assert!(s.device_name.is_none());
    assert!(!s.translation.enabled);
    assert!(s.translation.providers.is_empty());
    assert_eq!(s.pipeline_mode, PipelineMode::Streaming);
    let p = s.model_paths();
    assert_eq!(p.tokens, "/tokens.txt");
}
