//! A weather lookup exposed as a tool of a Model Context Protocol router.
//!
//! The router answers catalog queries (tools, resources, prompts, secrets)
//! with fixed data, and drives one tool call through its stages: argument
//! validation, credential resolution, the outbound request, and the mapping
//! of the upstream answer to a tool result. The host performs the outside
//! work between the stages and hands the outcomes back.

pub mod arguments;
pub mod catalog;
pub mod invocation;
pub mod model;
pub mod percent;
