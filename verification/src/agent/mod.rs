//! The tool-calling agent: messages and events, the tool vocabulary, and the
//! turn loop.
pub mod orchestrator;
pub mod tool_list;
pub mod tool_schema;
pub mod types;
