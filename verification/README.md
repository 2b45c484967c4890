# oncaptions_backend

The decision logic of a live-captioning backend, verified with Verus. The
backend captures audio (PipeWire, PulseAudio, ALSA or JACK), recognizes speech
in one of two modes (a streaming recognizer, or voice activity detection with
an offline recognizer), optionally translates the final transcripts through
OpenAI-compatible services, and serves everything to a client over a
WebSocket.

## Layout

- `src/` — the verified library.
  - `text.rs` — character-level string operations (replace, trim, suffixes,
    splitting, case-insensitive comparison) with exact specifications.
  - `config.rs` — recognition modes, audio backends, model file layout and
    pipeline settings.
  - `ipc.rs` — the client protocol: what a message asks for, and which
    messages go back.
  - `pipeline/` — the control state behind a pipeline handle (`control.rs`),
    the decisions of one pipeline run (`run.rs`), the framing of recognizer
    input and output (`recognize.rs`), model checks (`model_check.rs`) and
    where the voice activity model is looked for (`vad_model.rs`).
  - `audio/` — stream error meaning, device selection, channel reduction
    (`capture.rs`) and device list ordering (`enumerator.rs`).
  - `translation/` — translator construction, requests and replies
    (`openai.rs`), cache keys and timestamps (`cache.rs`).
- `app/` — the program around the library: the WebSocket server, audio
  capture threads, the speech recognizers, the SQLite cache and the HTTP
  client. It performs the work and asks the library what to do next.
- `tests/` — tests of the library on concrete values.
