//! The values that the router exchanges with its host.
use vstd::prelude::*;

verus! {

/// A JSON document carried as text.
#[derive(Clone, Debug, PartialEq)]
pub struct Value {
    pub json: String,
}

/// Who a piece of content is meant for.
#[derive(Clone, Copy, Debug, PartialEq, Eq, Structural)]
pub enum Role {
    User,
    Assistant,
}

/// A priority between 0 and 1, held in thousandths (1000 is the highest).
#[derive(Clone, Copy, Debug, PartialEq, Eq, Structural)]
pub struct Priority {
    pub thousandths: u16,
}

impl Priority {
    pub open spec fn wf(self) -> bool {
        self.thousandths <= 1000
    }
}

/// Hints on how a client should use a piece of content.
#[derive(Clone, Debug, PartialEq)]
pub struct Annotations {
    pub audience: Option<Vec<Role>>,
    pub priority: Option<Priority>,
    pub timestamp: Option<String>,
}

/// A piece of text, with optional annotations.
#[derive(Clone, Debug, PartialEq)]
pub struct TextContent {
    pub text: String,
    pub annotations: Option<Annotations>,
}

/// One item of a tool result.
#[derive(Clone, Debug, PartialEq)]
pub enum Content {
    Text(TextContent),
}

/// What a tool call produced. `is_error` set to `Some(true)` reports a
/// problem to the caller as ordinary content.
#[derive(Clone, Debug, PartialEq)]
pub struct CallToolResult {
    pub content: Vec<Content>,
    pub is_error: Option<bool>,
}

/// Why a tool call produced no result.
#[derive(Clone, Debug, PartialEq)]
pub enum ToolError {
    /// The arguments are not what the tool takes.
    InvalidParameters(String),
    /// A step of the call failed: the credential, the transport or the
    /// upstream answer.
    ExecutionError(String),
    /// No tool has the given name.
    NotFound(String),
}

/// A callable tool, with the JSON schemas of its input and output.
#[derive(Clone, Debug, PartialEq)]
pub struct Tool {
    pub name: String,
    pub description: String,
    pub input_schema: Value,
    pub output_schema: Option<Value>,
}

#[derive(Clone, Copy, Debug, PartialEq, Eq, Structural)]
pub struct ToolsCapability {
    pub list_changed: Option<bool>,
}

#[derive(Clone, Copy, Debug, PartialEq, Eq, Structural)]
pub struct ResourcesCapability {
    pub subscribe: Option<bool>,
    pub list_changed: Option<bool>,
}

#[derive(Clone, Copy, Debug, PartialEq, Eq, Structural)]
pub struct PromptsCapability {
    pub list_changed: Option<bool>,
}

/// Which catalogs the router advertises.
#[derive(Clone, Copy, Debug, PartialEq, Eq, Structural)]
pub struct ServerCapabilities {
    pub prompts: Option<PromptsCapability>,
    pub resources: Option<ResourcesCapability>,
    pub tools: Option<ToolsCapability>,
}

/// A readable resource, addressed by its uri.
#[derive(Clone, Debug, PartialEq)]
pub struct McpResource {
    pub uri: String,
    pub name: String,
    pub description: Option<String>,
    pub mime_type: String,
    pub annotations: Option<Annotations>,
}

#[derive(Clone, Debug, PartialEq)]
pub struct TextResourceContents {
    pub uri: String,
    pub mime_type: Option<String>,
    pub text: String,
}

#[derive(Clone, Debug, PartialEq)]
pub enum ResourceContents {
    Text(TextResourceContents),
}

#[derive(Clone, Debug, PartialEq)]
pub struct ReadResourceResult {
    pub contents: Vec<ResourceContents>,
}

#[derive(Clone, Debug, PartialEq)]
pub enum ResourceError {
    /// No resource has the given uri.
    NotFound(String),
}

/// An argument that a prompt takes.
#[derive(Clone, Debug, PartialEq)]
pub struct PromptArgument {
    pub name: String,
    pub description: Option<String>,
    pub required: Option<bool>,
}

/// A message template, addressed by its name.
#[derive(Clone, Debug, PartialEq)]
pub struct Prompt {
    pub name: String,
    pub description: Option<String>,
    pub arguments: Option<Vec<PromptArgument>>,
}

#[derive(Clone, Copy, Debug, PartialEq, Eq, Structural)]
pub enum PromptMessageRole {
    User,
    Assistant,
}

#[derive(Clone, Debug, PartialEq)]
pub enum PromptMessageContent {
    Text(TextContent),
}

#[derive(Clone, Debug, PartialEq)]
pub struct PromptMessage {
    pub role: PromptMessageRole,
    pub content: PromptMessageContent,
}

#[derive(Clone, Debug, PartialEq)]
pub struct GetPromptResult {
    pub description: Option<String>,
    pub messages: Vec<PromptMessage>,
}

#[derive(Clone, Debug, PartialEq)]
pub enum PromptError {
    /// No prompt has the given name.
    NotFound(String),
}

/// A secret that the host must provide.
#[derive(Clone, Debug, PartialEq)]
pub struct SecretsDescription {
    pub name: String,
    pub description: String,
    pub required: bool,
}

} // verus!
