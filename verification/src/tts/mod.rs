//! Speaking: cutting an answer into pieces to speak, decoding what the speech
//! service sends, and deciding when the assistant is audible.
pub mod chunker;
pub mod deepgram;
pub mod deepgram_flux;
pub mod player;
pub mod session;
