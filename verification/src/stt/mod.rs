//! Listening: cutting speech into utterances and having them transcribed.
pub mod events;
pub mod groq;

pub mod sidecar;
