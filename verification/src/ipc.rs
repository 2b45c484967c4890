//! The client protocol: what an incoming message asks for, and which
//! messages go back to the client.
use crate::audio::DeviceInfo;
use crate::config::{
    lemma_mode_named_inverse, mode_name, mode_named, AudioBackend, PipelineMode, PipelineSettings,
};
use crate::pipeline::{PipelineError, PipelineStatus, StartRejected, TranscriptionEvent};
use crate::text::{concat, owned, str_eq};
use crate::translation::{TranslationConfig, TranslationResult};
use vstd::prelude::*;

verus! {

/// A message from the client, as decoded from its JSON text (the voice
/// activity detector's tuning values are kept apart by the application).
#[derive(Debug, Clone)]
pub struct IncomingMessage {
    pub msg_type: String,
    pub model_dir: Option<String>,
    pub language: Option<String>,
    pub translate: Option<bool>,
    pub audio_backend: Option<String>,
    pub device_name: Option<String>,
    pub translation: Option<TranslationConfig>,
    pub pipeline_mode: Option<String>,
}

/// What a client message asks for.
#[derive(Debug, Clone)]
pub enum Command {
    /// Start a pipeline with these settings.
    StartPipeline(PipelineSettings),
    /// Stop the pipeline.
    StopPipeline,
    /// List the capture devices.
    ListDevices,
}

/// Why a client message is refused.
#[derive(Debug, Clone)]
pub enum MessageError {
    /// The named audio backend is not known.
    UnknownBackend(String),
    /// The model directory is not an absolute path.
    RelativeModelDir,
    /// The message type is not known.
    UnknownType(String),
}

/// The message that reports a refusal.
pub open spec fn message_error_text(e: MessageError) -> Seq<char> {
    match e {
        MessageError::UnknownBackend(s) => "unknown audio backend: "@ + s@,
        MessageError::RelativeModelDir => "model_dir must be absolute"@,
        MessageError::UnknownType(s) => "unknown message type: "@ + s@,
    }
}

impl MessageError {
    /// The message that reports this refusal.
    pub fn message(&self) -> (m: String)
        ensures
            m@ == message_error_text(*self),
    {
        match self {
            MessageError::UnknownBackend(s) => concat("unknown audio backend: ", s.as_str()),
            MessageError::RelativeModelDir => owned("model_dir must be absolute"),
            MessageError::UnknownType(s) => concat("unknown message type: ", s.as_str()),
        }
    }
}

/// The backend named `s`, if any.
pub open spec fn backend_named(s: Seq<char>) -> Option<AudioBackend> {
    if s == "alsa"@ {
        Some(AudioBackend::Alsa)
    } else if s == "pulse"@ {
        Some(AudioBackend::Pulse)
    } else if s == "jack"@ {
        Some(AudioBackend::Jack)
    } else if s == "pipewire"@ {
        Some(AudioBackend::PipeWire)
    } else {
        None
    }
}

/// The audio backend named `s` (`alsa`, `pulse`, `jack` or `pipewire`).
pub fn parse_backend(s: &str) -> (r: Result<AudioBackend, MessageError>)
    ensures
        match (r, backend_named(s@)) {
            (Ok(b), Some(c)) => b == c,
            (Err(MessageError::UnknownBackend(n)), None) => n@ == s@,
            _ => false,
        },
{
    if str_eq(s, "alsa") {
        Ok(AudioBackend::Alsa)
    } else if str_eq(s, "pulse") {
        Ok(AudioBackend::Pulse)
    } else if str_eq(s, "jack") {
        Ok(AudioBackend::Jack)
    } else if str_eq(s, "pipewire") {
        Ok(AudioBackend::PipeWire)
    } else {
        Err(MessageError::UnknownBackend(owned(s)))
    }
}

/// A path is absolute (on Unix): it starts at the root.
pub open spec fn is_absolute(p: Seq<char>) -> bool {
    p.len() > 0 && p[0] == '/'
}

/// Whether the path `p` is absolute.
pub fn path_is_absolute(p: &str) -> (r: bool)
    ensures
        r == is_absolute(p@),
{
    let v = crate::text::chars_of(p);
    v.len() > 0 && v[0] == '/'
}

/// The kinds of client message.
pub enum MessageKind {
    Start,
    Stop,
    List,
    Unknown,
}

/// The kind of a message of type `t`.
pub open spec fn message_kind(t: Seq<char>) -> MessageKind {
    if t == "start_pipeline"@ {
        MessageKind::Start
    } else if t == "stop_pipeline"@ {
        MessageKind::Stop
    } else if t == "list_devices"@ {
        MessageKind::List
    } else {
        MessageKind::Unknown
    }
}

/// The characters of an optional string, empty where it is absent.
pub open spec fn or_empty(o: Option<String>) -> Seq<char> {
    match o {
        Some(s) => s@,
        None => Seq::empty(),
    }
}

/// Why a start message is refused, if it is: an unknown backend first, then
/// a model directory that is not absolute (an absent one counts as empty).
pub open spec fn start_refusal(msg: IncomingMessage) -> Option<MessageError> {
    match msg.audio_backend {
        Some(b) if backend_named(b@) is None => Some(MessageError::UnknownBackend(b)),
        _ => if !is_absolute(or_empty(msg.model_dir)) {
            Some(MessageError::RelativeModelDir)
        } else {
            None
        },
    }
}

/// `s` are the settings a start message `msg` asks for: the backend defaults
/// to ALSA, the language to `auto`, translation to off, and a missing or
/// unknown mode to streaming.
pub open spec fn start_settings(msg: IncomingMessage, s: PipelineSettings) -> bool {
    &&& s.model_dir@ == or_empty(msg.model_dir)
    &&& s.language@ == match msg.language {
        Some(l) => l@,
        None => "auto"@,
    }
    &&& s.translate == match msg.translate {
        Some(t) => t,
        None => false,
    }
    &&& s.audio_backend == match msg.audio_backend {
        Some(b) => backend_named(b@)->0,
        None => AudioBackend::Alsa,
    }
    &&& s.device_name == msg.device_name
    &&& match msg.translation {
        Some(t) => s.translation == t,
        None => !s.translation.enabled && s.translation.providers@.len() == 0,
    }
    &&& s.pipeline_mode == match msg.pipeline_mode {
        Some(m) => match mode_named(m@) {
            Some(k) => k,
            None => PipelineMode::Streaming,
        },
        None => PipelineMode::Streaming,
    }
}

/// `r` is what the client message `msg` asks for, or why it is refused.
pub open spec fn interpreted(msg: IncomingMessage, r: Result<Command, MessageError>) -> bool {
    match message_kind(msg.msg_type@) {
        MessageKind::Start => match start_refusal(msg) {
            Some(e) => r matches Err(f) && message_error_text(f) == message_error_text(e),
            None => r matches Ok(Command::StartPipeline(s)) && start_settings(msg, s),
        },
        MessageKind::Stop => r matches Ok(Command::StopPipeline),
        MessageKind::List => r matches Ok(Command::ListDevices),
        MessageKind::Unknown => r matches Err(MessageError::UnknownType(t)) && t@ == msg.msg_type@,
    }
}

/// What the client message `msg` asks for, or why it is refused.
pub fn interpret_message(msg: IncomingMessage) -> (r: Result<Command, MessageError>)
    ensures
        interpreted(msg, r),
        r matches Ok(Command::StartPipeline(s)) ==> match msg.translation {
            Some(t) => s.translation == t,
            None => !s.translation.enabled && s.translation.providers@.len() == 0,
        },
{
    let ghost m0 = msg;
    if str_eq(msg.msg_type.as_str(), "start_pipeline") {
        let backend = match &msg.audio_backend {
            Some(b) => match parse_backend(b.as_str()) {
                Ok(k) => k,
                Err(e) => {
                    return Err(e);
                },
            },
            None => AudioBackend::Alsa,
        };
        let model_dir = match msg.model_dir {
            Some(d) => d,
            None => String::new(),
        };
        if !path_is_absolute(model_dir.as_str()) {
            return Err(MessageError::RelativeModelDir);
        }
        let pipeline_mode = match &msg.pipeline_mode {
            Some(m) => match PipelineMode::from_str(m.as_str()) {
                Some(k) => k,
                None => PipelineMode::Streaming,
            },
            None => PipelineMode::Streaming,
        };
        let language = match msg.language {
            Some(l) => l,
            None => owned("auto"),
        };
        let translate = match msg.translate {
            Some(t) => t,
            None => false,
        };
        let translation = match msg.translation {
            Some(t) => t,
            None => TranslationConfig::empty(),
        };
        let settings = PipelineSettings {
            model_dir,
            language,
            translate,
            audio_backend: backend,
            device_name: msg.device_name,
            translation,
            pipeline_mode,
        };
        assert(start_settings(m0, settings));
        Ok(Command::StartPipeline(settings))
    } else if str_eq(msg.msg_type.as_str(), "stop_pipeline") {
        Ok(Command::StopPipeline)
    } else if str_eq(msg.msg_type.as_str(), "list_devices") {
        Ok(Command::ListDevices)
    } else {
        Err(MessageError::UnknownType(msg.msg_type))
    }
}

/// A message to the client.
#[derive(Debug, Clone)]
pub enum OutgoingMessage {
    /// Recognized text.
    Transcription { text: String, is_final: bool },
    /// A translation of a final transcript.
    Translation(TranslationResult),
    /// The pipeline's state: `running`, `stopped` or `error`.
    PipelineStatus { state: String },
    /// A failure, with a code and a description.
    Error { code: String, message: String },
    /// The capture devices.
    DeviceList(Vec<DeviceInfo>),
}

/// The content of a message to the client, where it is a status or an error.
pub open spec fn is_status(m: OutgoingMessage, state: Seq<char>) -> bool {
    m matches OutgoingMessage::PipelineStatus { state: s } && s@ == state
}

/// `m` is an error message with this code and description.
pub open spec fn is_error(m: OutgoingMessage, code: Seq<char>, message: Seq<char>) -> bool {
    m matches OutgoingMessage::Error { code: c, message: t } && c@ == code && t@ == message
}

/// The pipeline status message for `state`.
fn status(state: &str) -> (m: OutgoingMessage)
    ensures
        is_status(m, state@),
{
    OutgoingMessage::PipelineStatus { state: owned(state) }
}

/// The answer to a start request: the pipeline runs, or the refusal.
pub fn reply_to_start(result: Result<(), StartRejected>) -> (m: OutgoingMessage)
    ensures
        result is Ok ==> is_status(m, "running"@),
        result is Err ==> is_error(m, "start_failed"@, "pipeline already running"@),
{
    match result {
        Ok(()) => status("running"),
        Err(e) => OutgoingMessage::Error { code: owned("start_failed"), message: e.message() },
    }
}

/// The answer to a stop request.
pub fn reply_to_stop() -> (m: OutgoingMessage)
    ensures
        is_status(m, "stopped"@),
{
    status("stopped")
}

/// The answer to a device list request.
pub fn reply_with_devices(devices: Vec<DeviceInfo>) -> (m: OutgoingMessage)
    ensures
        m == OutgoingMessage::DeviceList(devices),
{
    OutgoingMessage::DeviceList(devices)
}

/// The answer to a message that could not be understood (`reason` says why).
pub fn reply_to_invalid(reason: String) -> (m: OutgoingMessage)
    ensures
        is_error(m, "invalid_message"@, reason@),
{
    OutgoingMessage::Error { code: owned("invalid_message"), message: reason }
}

/// Something the pipeline reports while a client is connected.
#[derive(Debug, Clone)]
pub enum PipelineEvent {
    Transcription(TranscriptionEvent),
    Status(PipelineStatus),
    Error(PipelineError),
    Translation(TranslationResult),
}

/// `ms` are the messages that tell the client of `event`, in order: each
/// report becomes one message, and an error is followed by an `error` status.
pub open spec fn forwarded(event: PipelineEvent, ms: Seq<OutgoingMessage>) -> bool {
    match event {
        PipelineEvent::Transcription(t) => ms.len() == 1 && ms[0]
            == (OutgoingMessage::Transcription { text: t.text, is_final: t.is_final }),
        PipelineEvent::Status(s) => ms.len() == 1 && ms[0]
            == (OutgoingMessage::PipelineStatus { state: s.state }),
        PipelineEvent::Error(e) => ms.len() == 2 && ms[0]
            == (OutgoingMessage::Error { code: e.code, message: e.message }) && is_status(
            ms[1],
            "error"@,
        ),
        PipelineEvent::Translation(t) => ms.len() == 1 && ms[0] == OutgoingMessage::Translation(t),
    }
}

/// The messages that tell the client of `event`, in order.
pub fn messages_for(event: PipelineEvent) -> (ms: Vec<OutgoingMessage>)
    ensures
        forwarded(event, ms@),
        event matches PipelineEvent::Transcription(t) ==> ms@.len() == 1 && ms@[0]->is_final
            == t.is_final && ms@[0]->text == t.text,
{
    let mut ms: Vec<OutgoingMessage> = Vec::new();
    match event {
        PipelineEvent::Transcription(t) => {
            ms.push(OutgoingMessage::Transcription { text: t.text, is_final: t.is_final });
        },
        PipelineEvent::Status(s) => {
            ms.push(OutgoingMessage::PipelineStatus { state: s.state });
        },
        PipelineEvent::Error(e) => {
            ms.push(OutgoingMessage::Error { code: e.code, message: e.message });
            ms.push(status("error"));
        },
        PipelineEvent::Translation(t) => {
            ms.push(OutgoingMessage::Translation(t));
        },
    }
    ms
}

/// A start message that carries a translation configuration starts the
/// pipeline with exactly that configuration: the same switch and the same
/// providers, in the same order.
pub proof fn lemma_start_keeps_translation(msg: IncomingMessage, r: Result<Command, MessageError>)
    requires
        interpreted(msg, r),
        msg.msg_type@ == "start_pipeline"@,
        msg.translation is Some,
        r is Ok,
    ensures
        r matches Ok(Command::StartPipeline(s)) && s.translation.enabled
            == msg.translation->0.enabled && s.translation.providers@
            == msg.translation->0.providers@,
{
}

/// A transcription reaches the client as one message with the event's text,
/// and a partial result stays partial: the message is final exactly when the
/// event is.
pub proof fn lemma_transcription_keeps_finality(event: PipelineEvent, ms: Seq<OutgoingMessage>)
    requires
        forwarded(event, ms),
        event is Transcription,
    ensures
        ms.len() == 1,
        ms[0] is Transcription,
        ms[0]->is_final == event->Transcription_0.is_final,
        ms[0]->text == event->Transcription_0.text,
{
}

/// A start message that is accepted starts the pipeline with what it says:
/// its absolute model directory, its language (else `auto`), translation of
/// results only where it asks for it, its backend (else ALSA), its device
/// name, and the mode it names where that name is known (else streaming).
pub proof fn lemma_start_follows_message(msg: IncomingMessage, r: Result<Command, MessageError>)
    requires
        interpreted(msg, r),
        msg.msg_type@ == "start_pipeline"@,
        r is Ok,
    ensures
        r matches Ok(Command::StartPipeline(s)) && {
            &&& msg.model_dir matches Some(d) && s.model_dir@ == d@ && d@.len() > 0 && d@[0]
                == '/'
            &&& msg.language matches Some(l) ==> s.language@ == l@
            &&& msg.language is None ==> s.language@ == "auto"@
            &&& s.translate == (msg.translate == Some(true))
            &&& msg.audio_backend is None ==> s.audio_backend == AudioBackend::Alsa
            &&& msg.audio_backend matches Some(b) ==> backend_named(b@) == Some(s.audio_backend)
            &&& s.device_name == msg.device_name
            &&& msg.pipeline_mode matches Some(m) ==> (mode_named(m@) is Some ==> mode_name(
                s.pipeline_mode,
            ) == m@)
            &&& msg.pipeline_mode matches Some(m) ==> (mode_named(m@) is None ==> s.pipeline_mode
                == PipelineMode::Streaming)
            &&& msg.pipeline_mode is None ==> s.pipeline_mode == PipelineMode::Streaming
        },
{
    if msg.pipeline_mode is Some {
        lemma_mode_named_inverse(msg.pipeline_mode->0@);
    }
}

/// A stop message asks to stop, a list message asks for the devices, and a
/// message of any other type than these and a start is refused with its type.
pub proof fn lemma_message_types(msg: IncomingMessage, r: Result<Command, MessageError>)
    requires
        interpreted(msg, r),
    ensures
        msg.msg_type@ == "stop_pipeline"@ ==> r matches Ok(Command::StopPipeline),
        msg.msg_type@ == "list_devices"@ ==> r matches Ok(Command::ListDevices),
        msg.msg_type@ != "start_pipeline"@ && msg.msg_type@ != "stop_pipeline"@ && msg.msg_type@
            != "list_devices"@ ==> (r matches Err(MessageError::UnknownType(t)) && t@
            == msg.msg_type@),
{
    reveal_strlit("start_pipeline");
    reveal_strlit("stop_pipeline");
    reveal_strlit("list_devices");
    assert("start_pipeline"@ != "stop_pipeline"@) by {
        assert("start_pipeline"@[2] != "stop_pipeline"@[2]);
    }
    assert("start_pipeline"@ != "list_devices"@) by {
        assert("start_pipeline"@[0] != "list_devices"@[0]);
    }
    assert("stop_pipeline"@ != "list_devices"@) by {
        assert("stop_pipeline"@[0] != "list_devices"@[0]);
    }
}

/// Each report of the pipeline reaches the client with its content: a status
/// as that status, a translation as that translation, and an error as that
/// error followed by the `error` status.
pub proof fn lemma_reports_keep_content(event: PipelineEvent, ms: Seq<OutgoingMessage>)
    requires
        forwarded(event, ms),
    ensures
        event matches PipelineEvent::Status(st) ==> ms.len() == 1 && ms[0]->state == st.state,
        event matches PipelineEvent::Translation(t) ==> ms.len() == 1 && ms[0]
            == OutgoingMessage::Translation(t),
        event matches PipelineEvent::Error(e) ==> ms.len() == 2 && ms[0]->code == e.code
            && ms[0]->message == e.message && ms[1]->state@ == "error"@,
{
}

} // verus!
