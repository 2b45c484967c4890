//! Pipeline configuration: recognition modes, audio backends, model file
//! layout and the settings a pipeline is started with.
use crate::text::{concat, str_eq};
use crate::translation::TranslationConfig;
use vstd::prelude::*;

verus! {

/// The set of files a transducer model directory provides.
#[derive(Debug, Clone)]
pub struct ModelPaths {
    pub encoder: String,
    pub decoder: String,
    pub joiner: String,
    pub tokens: String,
}

/// How audio is turned into text.
#[derive(Debug, Clone, Copy, PartialEq, Eq, Structural)]
pub enum PipelineMode {
    /// An online recognizer that emits partial and final results.
    Streaming,
    /// Voice activity detection cuts segments; each is decoded offline.
    VadOffline,
}

/// The audio system a capture is opened on.
#[derive(Debug, Clone, Copy, PartialEq, Eq, Structural)]
pub enum AudioBackend {
    Alsa,
    Pulse,
    Jack,
    PipeWire,
}

/// The wire name of a pipeline mode.
pub open spec fn mode_name(m: PipelineMode) -> Seq<char> {
    match m {
        PipelineMode::Streaming => "streaming"@,
        PipelineMode::VadOffline => "vad_offline"@,
    }
}

/// The mode whose wire name is `s`, if any.
pub open spec fn mode_named(s: Seq<char>) -> Option<PipelineMode> {
    if s == "streaming"@ {
        Some(PipelineMode::Streaming)
    } else if s == "vad_offline"@ {
        Some(PipelineMode::VadOffline)
    } else {
        None
    }
}

impl PipelineMode {
    /// The mode named `s` (`"streaming"` or `"vad_offline"`).
    pub fn from_str(s: &str) -> (r: Option<PipelineMode>)
        ensures
            r == mode_named(s@),
    {
        if str_eq(s, "streaming") {
            Some(PipelineMode::Streaming)
        } else if str_eq(s, "vad_offline") {
            Some(PipelineMode::VadOffline)
        } else {
            None
        }
    }

    /// The wire name of this mode.
    pub fn as_str(&self) -> (r: &'static str)
        ensures
            r@ == mode_name(*self),
    {
        match self {
            PipelineMode::Streaming => "streaming",
            PipelineMode::VadOffline => "vad_offline",
        }
    }
}

/// Parsing a mode's own name gives the mode back.
pub proof fn lemma_mode_name_round_trip(m: PipelineMode)
    ensures
        mode_named(mode_name(m)) == Some(m),
{
    reveal_strlit("streaming");
    reveal_strlit("vad_offline");
    assert("streaming"@ != "vad_offline"@) by {
        assert("streaming"@[0] != "vad_offline"@[0]);
    }
}

/// A name that parses to a mode is exactly that mode's name.
pub proof fn lemma_mode_named_inverse(s: Seq<char>)
    ensures
        mode_named(s) matches Some(m) ==> mode_name(m) == s,
{
}

impl ModelPaths {
    /// The encoder, decoder, joiner and token files of the model directory `model_dir`.
    pub fn in_dir(model_dir: &str) -> (p: ModelPaths)
        ensures
            p.encoder@ == model_dir@ + "/encoder.onnx"@,
            p.decoder@ == model_dir@ + "/decoder.onnx"@,
            p.joiner@ == model_dir@ + "/joiner.onnx"@,
            p.tokens@ == model_dir@ + "/tokens.txt"@,
    {
        ModelPaths {
            encoder: concat(model_dir, "/encoder.onnx"),
            decoder: concat(model_dir, "/decoder.onnx"),
            joiner: concat(model_dir, "/joiner.onnx"),
            tokens: concat(model_dir, "/tokens.txt"),
        }
    }
}

/// The settings a pipeline is started with, apart from the voice activity
/// detector's tuning values, which the application keeps beside them.
#[derive(Debug, Clone)]
pub struct PipelineSettings {
    pub model_dir: String,
    pub language: String,
    pub translate: bool,
    pub audio_backend: AudioBackend,
    pub device_name: Option<String>,
    pub translation: TranslationConfig,
    pub pipeline_mode: PipelineMode,
}

impl PipelineSettings {
    /// The model files of this pipeline's model directory.
    pub fn model_paths(&self) -> (p: ModelPaths)
        ensures
            p.encoder@ == self.model_dir@ + "/encoder.onnx"@,
            p.decoder@ == self.model_dir@ + "/decoder.onnx"@,
            p.joiner@ == self.model_dir@ + "/joiner.onnx"@,
            p.tokens@ == self.model_dir@ + "/tokens.txt"@,
    {
        ModelPaths::in_dir(self.model_dir.as_str())
    }
}

impl Default for PipelineSettings {
    /// No model directory, automatic language, no translation, PipeWire
    /// capture on the default device, streaming recognition.
    fn default() -> (s: PipelineSettings)
        ensures
            s.model_dir@ == Seq::<char>::empty(),
            s.language@ == "auto"@,
            !s.translate,
            s.audio_backend == AudioBackend::PipeWire,
            s.device_name is None,
            !s.translation.enabled,
            s.translation.providers@.len() == 0,
            s.pipeline_mode == PipelineMode::Streaming,
    {
        PipelineSettings {
            model_dir: String::new(),
            language: crate::text::owned("auto"),
            translate: false,
            audio_backend: AudioBackend::PipeWire,
            device_name: None,
            translation: TranslationConfig::empty(),
            pipeline_mode: PipelineMode::Streaming,
        }
    }
}

} // verus!
