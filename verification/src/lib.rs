//! A Model Context Protocol (MCP) server library: JSON-RPC 2.0 message types,
//! registries of tools, resources and prompts, the request decisions of a server,
//! and the framing and routing rules of its stdio and HTTP transports.

pub mod error;
pub mod json;
pub mod prompt;
pub mod protocol;
pub mod registry;
pub mod resource;
pub mod server;
pub mod text;
pub mod tool;
pub mod transport;

pub use error::{McpError, McpResult};
pub use prompt::{PromptArgumentBuilder, PromptBuilder, PromptRegistry};
pub use protocol::{
    CallToolParams, CallToolResult, Content, GetPromptParams, GetPromptResult, InitializeResult,
    JsonRpcError, JsonRpcNotification, JsonRpcRequest, JsonRpcResponse, ListParams,
    ListPromptsResult, ListResourcesResult, ListToolsResult, LoggingCapability, Prompt,
    PromptArgument, PromptMessage, PromptsCapability, ProtocolVersion, ReadResourceParams,
    ReadResourceResult, RequestId, Resource, ResourceContents, ResourceLink,
    ResourcesCapability, ServerCapabilities, ServerInfo, Tool, ToolsCapability,
};
pub use resource::{ResourceBuilder, ResourceRegistry};
pub use server::McpServer;
pub use tool::{ToolBuilder, ToolRegistry};
pub use transport::{HttpTransport, StdioTransport};
