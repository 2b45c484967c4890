//! Verified decision logic of a live-captioning backend: configuration,
//! message handling, pipeline control, device selection and ordering, audio
//! framing, recognition output and translation requests.

pub mod audio;
pub mod config;
pub mod ipc;
pub mod pipeline;
pub mod text;
pub mod translation;
