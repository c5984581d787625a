//! The user's documents: asking the retrieval service for passages, and
//! choosing among those it finds.
pub mod client;
pub mod process;
pub mod retrieval_planner;
pub mod types;
