//! JSON-RPC 2.0 messages and the MCP types that travel in them.
//!
//! JSON payloads are `serde_json` values and are carried through unchanged.

use vstd::prelude::*;
use vstd::std_specs::convert::FromSpecImpl;
use vstd::string::*;

verus! {

/// A copy of an optional text.
fn clone_opt_string(o: &Option<String>) -> (r: Option<String>)
    ensures
        r == *o,
{
    match o {
        Some(s) => Some(s.clone()),
        None => None,
    }
}

/// The identifier that pairs a response with its request.
#[derive(Debug, PartialEq, Eq)]
pub enum RequestId {
    Number(i64),
    String(String),
}

impl RequestId {
    /// The identifier used where a request's own is unknown: the number 0.
    pub fn null() -> (r: Self)
        ensures
            r == RequestId::Number(0),
    {
        RequestId::Number(0)
    }
}

impl Clone for RequestId {
    fn clone(&self) -> (r: Self)
        ensures
            r == *self,
    {
        match self {
            RequestId::Number(n) => RequestId::Number(*n),
            RequestId::String(s) => RequestId::String(s.clone()),
        }
    }
}

impl From<i64> for RequestId {
    fn from(n: i64) -> (r: Self)
        ensures
            r == RequestId::Number(n),
    {
        RequestId::Number(n)
    }
}

impl FromSpecImpl<i64> for RequestId {
    open spec fn obeys_from_spec() -> bool {
        true
    }

    open spec fn from_spec(v: i64) -> Self {
        RequestId::Number(v)
    }
}

impl<'a> From<&'a str> for RequestId {
    fn from(s: &'a str) -> (r: Self)
        ensures
            r matches RequestId::String(t) && t@ == s@,
    {
        RequestId::String(s.to_owned())
    }
}

impl<'a> FromSpecImpl<&'a str> for RequestId {
    open spec fn obeys_from_spec() -> bool {
        false
    }

    open spec fn from_spec(v: &'a str) -> Self {
        vstd::pervasive::arbitrary()
    }
}

/// A version of the protocol that the server speaks.
#[derive(Debug, Clone, Copy, PartialEq, Eq)]
pub enum ProtocolVersion {
    V20241105,
    Latest,
}

impl ProtocolVersion {
    /// The date string of the version.
    pub open spec fn text(self) -> Seq<char> {
        match self {
            ProtocolVersion::V20241105 => "2024-11-05"@,
            ProtocolVersion::Latest => "2024-11-05"@,
        }
    }

    /// The date string of the version, as it appears on the wire.
    pub fn as_str(&self) -> (s: &'static str)
        ensures
            s@ == self.text(),
    {
        match self {
            ProtocolVersion::V20241105 => "2024-11-05",
            ProtocolVersion::Latest => "2024-11-05",
        }
    }
}

impl Default for ProtocolVersion {
    fn default() -> (r: Self)
        ensures
            r == ProtocolVersion::Latest,
    {
        ProtocolVersion::Latest
    }
}

/// A JSON-RPC request: it carries an identifier and expects a response.
#[derive(Debug, Clone)]
pub struct JsonRpcRequest {
    pub jsonrpc: String,
    pub id: RequestId,
    pub method: String,
    pub params: Option<serde_json::Value>,
}

/// A JSON-RPC notification: no identifier, no response.
#[derive(Debug, Clone)]
pub struct JsonRpcNotification {
    pub jsonrpc: String,
    pub method: String,
    pub params: Option<serde_json::Value>,
}

/// The error member of a JSON-RPC response.
#[derive(Debug, Clone)]
pub struct JsonRpcError {
    pub code: i32,
    pub message: String,
    pub data: Option<serde_json::Value>,
}

/// A JSON-RPC response: a result or an error for the request with the same identifier.
#[derive(Debug, Clone)]
pub struct JsonRpcResponse {
    pub jsonrpc: String,
    pub id: RequestId,
    pub result: Option<serde_json::Value>,
    pub error: Option<JsonRpcError>,
}

impl JsonRpcResponse {
    /// A response that carries a result.
    pub fn success(id: RequestId, result: serde_json::Value) -> (r: Self)
        ensures
            r.jsonrpc@ == "2.0"@,
            r.id == id,
            r.result == Some(result),
            r.error is None,
    {
        JsonRpcResponse { jsonrpc: String::from_str("2.0"), id, result: Some(result), error: None }
    }

    /// A response that carries an error.
    pub fn error(id: RequestId, code: i32, message: String, data: Option<serde_json::Value>) -> (r:
        Self)
        ensures
            r.jsonrpc@ == "2.0"@,
            r.id == id,
            r.result is None,
            r.error matches Some(e) && e.code == code && e.message == message && e.data == data,
    {
        JsonRpcResponse {
            jsonrpc: String::from_str("2.0"),
            id,
            result: None,
            error: Some(JsonRpcError { code, message, data }),
        }
    }
}

/// The name and version a server announces.
#[derive(Debug)]
pub struct ServerInfo {
    pub name: String,
    pub version: String,
}

impl Clone for ServerInfo {
    fn clone(&self) -> (r: Self)
        ensures
            r == *self,
    {
        ServerInfo { name: self.name.clone(), version: self.version.clone() }
    }
}

/// What the server offers about tools.
#[derive(Debug, Clone, Copy, PartialEq, Eq)]
pub struct ToolsCapability {
    pub list_changed: bool,
}

impl Default for ToolsCapability {
    fn default() -> (r: Self)
        ensures
            r.list_changed == false,
    {
        ToolsCapability { list_changed: false }
    }
}

/// What the server offers about resources.
#[derive(Debug, Clone, Copy, PartialEq, Eq)]
pub struct ResourcesCapability {
    pub subscribe: bool,
    pub list_changed: bool,
}

impl Default for ResourcesCapability {
    fn default() -> (r: Self)
        ensures
            r.subscribe == false,
            r.list_changed == false,
    {
        ResourcesCapability { subscribe: false, list_changed: false }
    }
}

/// What the server offers about prompts.
#[derive(Debug, Clone, Copy, PartialEq, Eq)]
pub struct PromptsCapability {
    pub list_changed: bool,
}

impl Default for PromptsCapability {
    fn default() -> (r: Self)
        ensures
            r.list_changed == false,
    {
        PromptsCapability { list_changed: false }
    }
}

/// The server's logging capability; it has no settings.
#[derive(Debug, Clone, Copy, PartialEq, Eq)]
pub struct LoggingCapability {}

/// The capabilities a server announces; an absent one is not offered.
#[derive(Debug, Clone, Copy, PartialEq, Eq)]
pub struct ServerCapabilities {
    pub tools: Option<ToolsCapability>,
    pub resources: Option<ResourcesCapability>,
    pub prompts: Option<PromptsCapability>,
    pub logging: Option<LoggingCapability>,
}

impl Default for ServerCapabilities {
    fn default() -> (r: Self)
        ensures
            r.tools is None,
            r.resources is None,
            r.prompts is None,
            r.logging is None,
    {
        ServerCapabilities { tools: None, resources: None, prompts: None, logging: None }
    }
}

/// The answer to `initialize`.
#[derive(Debug, Clone)]
pub struct InitializeResult {
    pub protocol_version: String,
    pub capabilities: ServerCapabilities,
    pub server_info: ServerInfo,
}

/// A tool that clients may call: its name, what it does, and the JSON schema of its arguments.
#[derive(Debug)]
pub struct Tool {
    pub name: String,
    pub description: Option<String>,
    pub input_schema: serde_json::Value,
}

impl Clone for Tool {
    fn clone(&self) -> (r: Self)
        ensures
            r == *self,
    {
        Tool {
            name: self.name.clone(),
            description: clone_opt_string(&self.description),
            input_schema: self.input_schema.clone(),
        }
    }
}

/// The answer to `tools/list`.
#[derive(Debug, Clone)]
pub struct ListToolsResult {
    pub tools: Vec<Tool>,
    pub next_cursor: Option<String>,
}

/// The parameters of `tools/call`.
#[derive(Debug, Clone)]
pub struct CallToolParams {
    pub name: String,
    pub arguments: serde_json::Value,
}

/// A link to a resource inside content.
#[derive(Debug, Clone, PartialEq, Eq)]
pub struct ResourceLink {
    pub uri: String,
    pub mime_type: Option<String>,
}

/// A piece of content in a tool result or a prompt message.
#[derive(Debug, Clone, PartialEq, Eq)]
pub enum Content {
    Text { text: String },
    Image { data: String, mime_type: String },
    ResourceLink { resource: ResourceLink },
}

impl Content {
    /// Text content.
    pub fn text(s: &str) -> (c: Self)
        ensures
            c matches Content::Text { text } && text@ == s@,
    {
        Content::Text { text: s.to_owned() }
    }
}

/// The outcome of a tool call: content, and whether the tool reports a failure.
#[derive(Debug, Clone)]
pub struct CallToolResult {
    pub content: Vec<Content>,
    pub is_error: bool,
}

impl CallToolResult {
    /// Whether the result is exactly one piece of text content with the given
    /// text, flagged as an error or not.
    pub open spec fn is_single_text(self, s: Seq<char>, is_error: bool) -> bool {
        &&& self.is_error == is_error
        &&& self.content@.len() == 1
        &&& self.content@[0] matches Content::Text { text } && text@ == s
    }

    /// A successful result holding one piece of text.
    pub fn text(s: &str) -> (r: Self)
        ensures
            r.is_single_text(s@, false),
    {
        let mut content: Vec<Content> = Vec::new();
        content.push(Content::text(s));
        CallToolResult { content, is_error: false }
    }

    /// A failed result holding one piece of text.
    pub fn error(s: &str) -> (r: Self)
        ensures
            r.is_single_text(s@, true),
    {
        let mut content: Vec<Content> = Vec::new();
        content.push(Content::text(s));
        CallToolResult { content, is_error: true }
    }
}

/// The parameters of a paginated list request.
#[derive(Debug, Clone, PartialEq, Eq)]
pub struct ListParams {
    pub cursor: Option<String>,
}

/// A resource that clients may read.
#[derive(Debug, PartialEq, Eq)]
pub struct Resource {
    pub uri: String,
    pub name: String,
    pub description: Option<String>,
    pub mime_type: Option<String>,
}

impl Clone for Resource {
    fn clone(&self) -> (r: Self)
        ensures
            r == *self,
    {
        Resource {
            uri: self.uri.clone(),
            name: self.name.clone(),
            description: clone_opt_string(&self.description),
            mime_type: clone_opt_string(&self.mime_type),
        }
    }
}

/// What reading a resource yields: text or base64 data.
#[derive(Debug, Clone, PartialEq, Eq)]
pub enum ResourceContents {
    Text { uri: String, mime_type: Option<String>, text: String },
    Blob { uri: String, mime_type: Option<String>, blob: String },
}

/// The answer to `resources/list`.
#[derive(Debug, Clone)]
pub struct ListResourcesResult {
    pub resources: Vec<Resource>,
    pub next_cursor: Option<String>,
}

/// The parameters of `resources/read`.
#[derive(Debug, Clone, PartialEq, Eq)]
pub struct ReadResourceParams {
    pub uri: String,
}

/// The answer to `resources/read`.
#[derive(Debug, Clone)]
pub struct ReadResourceResult {
    pub contents: Vec<ResourceContents>,
}

/// An argument that a prompt accepts.
#[derive(Debug, PartialEq, Eq)]
pub struct PromptArgument {
    pub name: String,
    pub description: Option<String>,
    pub required: bool,
}

impl Clone for PromptArgument {
    fn clone(&self) -> (r: Self)
        ensures
            r == *self,
    {
        PromptArgument {
            name: self.name.clone(),
            description: clone_opt_string(&self.description),
            required: self.required,
        }
    }
}

/// A prompt template that clients may request.
#[derive(Debug, PartialEq, Eq)]
pub struct Prompt {
    pub name: String,
    pub description: Option<String>,
    pub arguments: Vec<PromptArgument>,
}

impl Prompt {
    /// Whether two prompts hold the same name, description and arguments.
    pub open spec fn same_as(self, other: Prompt) -> bool {
        &&& self.name == other.name
        &&& self.description == other.description
        &&& self.arguments@ == other.arguments@
    }
}

/// Two prompts are the same exactly when their names and descriptions agree and
/// their arguments agree one by one: name, description, and whether it is required.
pub proof fn lemma_same_prompt(a: Prompt, b: Prompt)
    ensures
        a.same_as(b) <==> (a.name == b.name && a.description == b.description
            && a.arguments@.len() == b.arguments@.len() && forall|i: int|
            0 <= i < a.arguments@.len() ==> (#[trigger] a.arguments@[i]).name == b.arguments@[i].name
                && a.arguments@[i].description == b.arguments@[i].description
                && a.arguments@[i].required == b.arguments@[i].required),
{
    if a.name == b.name && a.description == b.description && a.arguments@.len() == b.arguments@.len()
        && forall|i: int|
        0 <= i < a.arguments@.len() ==> (#[trigger] a.arguments@[i]).name == b.arguments@[i].name
            && a.arguments@[i].description == b.arguments@[i].description
            && a.arguments@[i].required == b.arguments@[i].required {
        assert(a.arguments@ =~= b.arguments@);
    }
}

impl Clone for Prompt {
    fn clone(&self) -> (r: Self)
        ensures
            r.same_as(*self),
            r.name@ == self.name@,
            r.description == self.description,
            r.arguments@ == self.arguments@,
            forall|i: int|
                0 <= i < r.arguments@.len() ==> (#[trigger] r.arguments@[i]).name@
                    == self.arguments@[i].name@ && r.arguments@[i].description
                    == self.arguments@[i].description && r.arguments@[i].required
                    == self.arguments@[i].required,
    {
        let mut arguments: Vec<PromptArgument> = Vec::new();
        let n = self.arguments.len();
        let mut i: usize = 0;
        while i < n
            invariant
                n == self.arguments@.len(),
                i <= n,
                arguments@ == self.arguments@.take(i as int),
            decreases n - i,
        {
            arguments.push(self.arguments[i].clone());
            assert(self.arguments@.take(i + 1) == self.arguments@.take(i as int).push(
                self.arguments@[i as int],
            ));
            i = i + 1;
        }
        assert(self.arguments@.take(n as int) == self.arguments@);
        Prompt {
            name: self.name.clone(),
            description: clone_opt_string(&self.description),
            arguments,
        }
    }
}

/// A message of a prompt: who speaks, and what.
#[derive(Debug, Clone, PartialEq, Eq)]
pub struct PromptMessage {
    pub role: String,
    pub content: Content,
}

/// The parameters of `prompts/get`.
#[derive(Debug, Clone)]
pub struct GetPromptParams {
    pub name: String,
    pub arguments: Option<serde_json::Value>,
}

/// The answer to `prompts/get`.
#[derive(Debug, Clone)]
pub struct GetPromptResult {
    pub description: Option<String>,
    pub messages: Vec<PromptMessage>,
}

/// The answer to `prompts/list`.
#[derive(Debug, Clone)]
pub struct ListPromptsResult {
    pub prompts: Vec<Prompt>,
    pub next_cursor: Option<String>,
}

} // verus!
