//! Decision logic of a local voice assistant.

pub mod actions;
pub mod agent;
pub mod audio;
pub mod backend;
pub mod client;
pub mod float_order;
pub mod http_status;
pub mod ids;
pub mod json;
pub mod json_members;
pub mod meeting_mode;
pub mod newest_first;
pub mod notes_mode;
pub mod overlay_window;
pub mod prompts;
pub mod provider;
pub mod providers;
pub mod rag;
pub mod state;
pub mod stt;
pub mod text;
pub mod transcript;
pub mod tts;
pub mod veronica;
pub mod voice_command;
pub mod working_state;
