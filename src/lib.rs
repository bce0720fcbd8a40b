//! Tool-invocation dispatch for a planning agent: tool descriptors, the
//! request/response contract of tool executors, and the demultiplexing of the
//! planner's streamed output into answer text and reasoning traces.
mod text;

pub mod api_tool;
pub mod descriptor;
pub mod document;
pub mod function_tool;
pub mod json;
pub mod protocol;
pub mod session;
pub mod stream;
