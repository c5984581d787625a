//! What the models are told, and how their answers are read.
pub mod analysis;
pub mod ask;
pub mod chat;
pub mod intent;
pub mod markers;
pub mod meeting;
pub mod notes;
pub mod persona;
pub mod setup;
pub mod veronica;
