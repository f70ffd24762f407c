//! The server: what it announces, what it has registered, whether the client has
//! completed the handshake, and how each request is decided.
//!
//! Running a handler, and turning results into JSON, is the caller's part: the
//! functions here decide which handler runs on which input, or answer directly.

use crate::error::{McpError, McpResult};
use crate::json::{is_json_null, json_null, json_object, json_object_value};
use crate::prompt::{default_prompt_result, PromptBuilder, PromptRegistry};
use crate::protocol::{
    CallToolParams, CallToolResult, GetPromptParams, JsonRpcRequest, JsonRpcResponse, GetPromptResult, InitializeResult,
    ListPromptsResult, ListResourcesResult, ListToolsResult, Prompt, PromptsCapability,
    ProtocolVersion, ReadResourceParams, ReadResourceResult, Resource, ResourcesCapability,
    ServerCapabilities, ServerInfo, Tool, ToolsCapability,
};
use crate::registry::{handler_for, insert_entry, keys_distinct, latest_per_key, lemma_register_sequence, metadata, register_all};
use crate::resource::{default_resource_contents, is_empty_text_of, ResourceBuilder, ResourceRegistry};
use crate::text::str_eq;
use crate::tool::{default_tool_result, ToolBuilder, ToolRegistry};
use vstd::prelude::*;
use vstd::string::*;

verus! {

/// The methods a server answers.
#[derive(Debug, Clone, Copy, PartialEq, Eq)]
pub enum Route {
    Initialize,
    ListTools,
    CallTool,
    ListResources,
    ReadResource,
    ListPrompts,
    GetPrompt,
    Ping,
}

/// The method that a method name selects, if it is one the server answers.
pub open spec fn route_of(method: Seq<char>) -> Option<Route> {
    if method == "initialize"@ {
        Some(Route::Initialize)
    } else if method == "tools/list"@ {
        Some(Route::ListTools)
    } else if method == "tools/call"@ {
        Some(Route::CallTool)
    } else if method == "resources/list"@ {
        Some(Route::ListResources)
    } else if method == "resources/read"@ {
        Some(Route::ReadResource)
    } else if method == "prompts/list"@ {
        Some(Route::ListPrompts)
    } else if method == "prompts/get"@ {
        Some(Route::GetPrompt)
    } else if method == "ping"@ {
        Some(Route::Ping)
    } else {
        None
    }
}

/// The eight method names the server answers are distinct texts.
proof fn reveal_method_names()
    ensures
        "initialize"@ != "tools/list"@,
        "initialize"@ != "tools/call"@,
        "initialize"@ != "resources/list"@,
        "initialize"@ != "resources/read"@,
        "initialize"@ != "prompts/list"@,
        "initialize"@ != "prompts/get"@,
        "initialize"@ != "ping"@,
        "tools/list"@ != "tools/call"@,
        "tools/list"@ != "resources/list"@,
        "tools/list"@ != "resources/read"@,
        "tools/list"@ != "prompts/list"@,
        "tools/list"@ != "prompts/get"@,
        "tools/list"@ != "ping"@,
        "tools/call"@ != "resources/list"@,
        "tools/call"@ != "resources/read"@,
        "tools/call"@ != "prompts/list"@,
        "tools/call"@ != "prompts/get"@,
        "tools/call"@ != "ping"@,
        "resources/list"@ != "resources/read"@,
        "resources/list"@ != "prompts/list"@,
        "resources/list"@ != "prompts/get"@,
        "resources/list"@ != "ping"@,
        "resources/read"@ != "prompts/list"@,
        "resources/read"@ != "prompts/get"@,
        "resources/read"@ != "ping"@,
        "prompts/list"@ != "prompts/get"@,
        "prompts/list"@ != "ping"@,
        "prompts/get"@ != "ping"@,
{
    reveal_strlit("initialize");
    reveal_strlit("tools/list");
    reveal_strlit("tools/call");
    reveal_strlit("resources/list");
    reveal_strlit("resources/read");
    reveal_strlit("prompts/list");
    reveal_strlit("prompts/get");
    reveal_strlit("ping");
    assert("initialize"@.len() == 10);
    assert("tools/list"@.len() == 10);
    assert("tools/call"@.len() == 10);
    assert("resources/list"@.len() == 14);
    assert("resources/read"@.len() == 14);
    assert("prompts/list"@.len() == 12);
    assert("prompts/get"@.len() == 11);
    assert("ping"@.len() == 4);
    assert("initialize"@[0] != "tools/list"@[0]);
    assert("initialize"@[0] != "tools/call"@[0]);
    assert("tools/list"@[6] != "tools/call"@[6]);
    assert("resources/list"@[10] != "resources/read"@[10]);
}

/// Each route is selected by exactly one method name, and no other method name
/// selects any route: `initialize`, `tools/list`, `tools/call`, `resources/list`,
/// `resources/read`, `prompts/list`, `prompts/get` and `ping`.
pub proof fn lemma_route_names(method: Seq<char>)
    ensures
        route_of(method) == Some(Route::Initialize) <==> method == "initialize"@,
        route_of(method) == Some(Route::ListTools) <==> method == "tools/list"@,
        route_of(method) == Some(Route::CallTool) <==> method == "tools/call"@,
        route_of(method) == Some(Route::ListResources) <==> method == "resources/list"@,
        route_of(method) == Some(Route::ReadResource) <==> method == "resources/read"@,
        route_of(method) == Some(Route::ListPrompts) <==> method == "prompts/list"@,
        route_of(method) == Some(Route::GetPrompt) <==> method == "prompts/get"@,
        route_of(method) == Some(Route::Ping) <==> method == "ping"@,
        route_of(method) is None <==> (method != "initialize"@ && method != "tools/list"@ && method
            != "tools/call"@ && method != "resources/list"@ && method != "resources/read"@ && method
            != "prompts/list"@ && method != "prompts/get"@ && method != "ping"@),
{
    reveal_method_names();
}

/// What answering a request takes: running a handler on an input, or nothing more
/// because the answer is already known.
pub enum Invocation<'a, H, A, X> {
    Run { handler: &'a H, input: A },
    Answer(X),
}

/// An MCP server: its identity, the protocol version it speaks, its registered tools,
/// resources and prompts, and whether the client has completed the handshake.
///
/// A registered handler of `None` is the default handler of its kind.
pub struct McpServer<T, R, P> {
    server_info: ServerInfo,
    protocol_version: ProtocolVersion,
    registry: ToolRegistry<Option<T>>,
    resource_registry: ResourceRegistry<Option<R>>,
    prompt_registry: PromptRegistry<Option<P>>,
    initialized: bool,
    notifications: Ghost<Seq<Seq<char>>>,
}

impl<T, R, P> McpServer<T, R, P> {
    pub closed spec fn info(&self) -> ServerInfo {
        self.server_info
    }

    pub closed spec fn version(&self) -> ProtocolVersion {
        self.protocol_version
    }

    pub closed spec fn tools(&self) -> Seq<(Seq<char>, Tool, Option<T>)> {
        self.registry.entries()
    }

    pub closed spec fn resources(&self) -> Seq<(Seq<char>, Resource, Option<R>)> {
        self.resource_registry.entries()
    }

    pub closed spec fn prompts(&self) -> Seq<(Seq<char>, Prompt, Option<P>)> {
        self.prompt_registry.entries()
    }

    /// Every tool registration since the server was created, in order.
    pub closed spec fn tool_history(&self) -> Seq<(Seq<char>, Tool, Option<T>)> {
        self.registry.history()
    }

    /// Every resource registration since the server was created, in order.
    pub closed spec fn resource_history(&self) -> Seq<(Seq<char>, Resource, Option<R>)> {
        self.resource_registry.history()
    }

    /// Every prompt registration since the server was created, in order.
    pub closed spec fn prompt_history(&self) -> Seq<(Seq<char>, Prompt, Option<P>)> {
        self.prompt_registry.history()
    }

    /// The methods of every notification the server has taken, in order.
    pub closed spec fn notification_history(&self) -> Seq<Seq<char>> {
        self.notifications@
    }

    pub closed spec fn initialized_spec(&self) -> bool {
        self.initialized
    }

    /// Each registry is well formed, and the handshake state is what the
    /// notifications taken so far leave.
    pub open spec fn wf(&self) -> bool {
        &&& keys_distinct(self.tools())
        &&& self.tools() == register_all(Seq::empty(), self.tool_history())
        &&& keys_distinct(self.resources())
        &&& self.resources() == register_all(Seq::empty(), self.resource_history())
        &&& keys_distinct(self.prompts())
        &&& self.prompts() == register_all(Seq::empty(), self.prompt_history())
        &&& self.initialized_spec() == initialized_after(false, self.notification_history())
    }

    /// A server with the given name and version, speaking the latest protocol version,
    /// with nothing registered and the handshake not yet complete.
    pub fn new(name: &str, version: &str) -> (s: Self)
        ensures
            s.wf(),
            s.info().name@ == name@,
            s.info().version@ == version@,
            s.version() == ProtocolVersion::Latest,
            s.tools().len() == 0,
            s.resources().len() == 0,
            s.prompts().len() == 0,
            s.tool_history().len() == 0,
            s.resource_history().len() == 0,
            s.prompt_history().len() == 0,
            s.notification_history().len() == 0,
            !s.initialized_spec(),
    {
        McpServer {
            server_info: ServerInfo { name: name.to_owned(), version: version.to_owned() },
            protocol_version: ProtocolVersion::Latest,
            registry: ToolRegistry::new(),
            resource_registry: ResourceRegistry::new(),
            prompt_registry: PromptRegistry::new(),
            initialized: false,
            notifications: Ghost(Seq::empty()),
        }
    }

    /// The same server, speaking the given protocol version.
    pub fn protocol_version(self, version: ProtocolVersion) -> (s: Self)
        ensures
            s.wf() == self.wf(),
            s.info() == self.info(),
            s.version() == version,
            s.tools() == self.tools(),
            s.resources() == self.resources(),
            s.prompts() == self.prompts(),
            s.tool_history() == self.tool_history(),
            s.resource_history() == self.resource_history(),
            s.prompt_history() == self.prompt_history(),
            s.notification_history() == self.notification_history(),
            s.initialized_spec() == self.initialized_spec(),
    {
        McpServer { protocol_version: version, ..self }
    }

    /// Registers the tool that the builder describes, replacing one of the same name.
    pub fn register_tool(&mut self, builder: ToolBuilder<T>)
        requires
            old(self).wf(),
        ensures
            final(self).wf(),
            exists|tool: Tool|
                tool.name@ == builder.name_spec() && tool.description == builder.description_spec()
                    && tool.input_schema == builder.schema_spec() && #[trigger] final(self).tools()
                    == insert_entry(old(self).tools(), (builder.name_spec(), tool, builder.handler_spec()))
                    && final(self).tool_history() == old(self).tool_history().push(
                    (builder.name_spec(), tool, builder.handler_spec()),
                ),
            final(self).info() == old(self).info(),
            final(self).version() == old(self).version(),
            final(self).resources() == old(self).resources(),
            final(self).prompts() == old(self).prompts(),
            final(self).resource_history() == old(self).resource_history(),
            final(self).prompt_history() == old(self).prompt_history(),
            final(self).notification_history() == old(self).notification_history(),
            final(self).initialized_spec() == old(self).initialized_spec(),
    {
        let (name, tool, handler) = builder.build();
        let ghost t = tool;
        self.registry.register(name, tool, handler);
        assert(self.tools() == insert_entry(old(self).tools(), (builder.name_spec(), t, builder.handler_spec())));
    }

    /// Registers the resource that the builder describes, replacing one of the same URI.
    pub fn register_resource(&mut self, builder: ResourceBuilder<R>)
        requires
            old(self).wf(),
        ensures
            final(self).wf(),
            exists|res: Resource|
                res.uri@ == builder.uri_spec() && res.name@ == builder.name_spec()
                    && res.description == builder.description_spec() && res.mime_type
                    == builder.mime_type_spec() && #[trigger] final(self).resources()
                    == insert_entry(old(self).resources(), (builder.uri_spec(), res, builder.handler_spec()))
                    && final(self).resource_history() == old(self).resource_history().push(
                    (builder.uri_spec(), res, builder.handler_spec()),
                ),
            final(self).info() == old(self).info(),
            final(self).version() == old(self).version(),
            final(self).tools() == old(self).tools(),
            final(self).prompts() == old(self).prompts(),
            final(self).tool_history() == old(self).tool_history(),
            final(self).prompt_history() == old(self).prompt_history(),
            final(self).notification_history() == old(self).notification_history(),
            final(self).initialized_spec() == old(self).initialized_spec(),
    {
        let (uri, resource, handler) = builder.build();
        let ghost r = resource;
        self.resource_registry.register(uri, resource, handler);
        assert(self.resources() == insert_entry(old(self).resources(), (builder.uri_spec(), r, builder.handler_spec())));
    }

    /// Registers the prompt that the builder describes, replacing one of the same name.
    pub fn register_prompt(&mut self, builder: PromptBuilder<P>)
        requires
            old(self).wf(),
        ensures
            final(self).wf(),
            exists|prompt: Prompt|
                prompt.name@ == builder.name_spec() && prompt.description == builder.description_spec()
                    && prompt.arguments@ == builder.arguments_spec() && #[trigger] final(self).prompts()
                    == insert_entry(old(self).prompts(), (builder.name_spec(), prompt, builder.handler_spec()))
                    && final(self).prompt_history() == old(self).prompt_history().push(
                    (builder.name_spec(), prompt, builder.handler_spec()),
                ),
            final(self).info() == old(self).info(),
            final(self).version() == old(self).version(),
            final(self).tools() == old(self).tools(),
            final(self).resources() == old(self).resources(),
            final(self).tool_history() == old(self).tool_history(),
            final(self).resource_history() == old(self).resource_history(),
            final(self).notification_history() == old(self).notification_history(),
            final(self).initialized_spec() == old(self).initialized_spec(),
    {
        let (name, prompt, handler) = builder.build();
        let ghost p = prompt;
        self.prompt_registry.register(name, prompt, handler);
        assert(self.prompts() == insert_entry(old(self).prompts(), (builder.name_spec(), p, builder.handler_spec())));
    }

    /// Decides a request by its method: a method the server answers selects its
    /// route, whether or not the client has completed the handshake, and any other
    /// method is reported as not found. An accepted request is answered by the
    /// `handle_*` function of its route.
    pub fn handle_request(&self, request: &JsonRpcRequest) -> (r: McpResult<Route>)
        ensures
            route_of(request.method@) matches Some(route) ==> r == Ok::<Route, McpError>(route),
            route_of(request.method@) is None ==> (r matches Err(McpError::MethodNotFound(m))
                && m@ == request.method@),
            request.method@ == "initialize"@ ==> r == Ok::<Route, McpError>(Route::Initialize),
            request.method@ == "tools/list"@ ==> r == Ok::<Route, McpError>(Route::ListTools),
            request.method@ == "tools/call"@ ==> r == Ok::<Route, McpError>(Route::CallTool),
            request.method@ == "resources/list"@ ==> r == Ok::<Route, McpError>(Route::ListResources),
            request.method@ == "resources/read"@ ==> r == Ok::<Route, McpError>(Route::ReadResource),
            request.method@ == "prompts/list"@ ==> r == Ok::<Route, McpError>(Route::ListPrompts),
            request.method@ == "prompts/get"@ ==> r == Ok::<Route, McpError>(Route::GetPrompt),
            request.method@ == "ping"@ ==> r == Ok::<Route, McpError>(Route::Ping),
            request.method@ != "initialize"@ && request.method@ != "tools/list"@ && request.method@
                != "tools/call"@ && request.method@ != "resources/list"@ && request.method@
                != "resources/read"@ && request.method@ != "prompts/list"@ && request.method@
                != "prompts/get"@ && request.method@ != "ping"@ ==> (r matches Err(
                McpError::MethodNotFound(m),
            ) && m@ == request.method@),
    {
        proof {
            reveal_method_names();
        }
        let method = request.method.as_str();
        if str_eq(method, "initialize") {
            Ok(Route::Initialize)
        } else if str_eq(method, "tools/list") {
            Ok(Route::ListTools)
        } else if str_eq(method, "tools/call") {
            Ok(Route::CallTool)
        } else if str_eq(method, "resources/list") {
            Ok(Route::ListResources)
        } else if str_eq(method, "resources/read") {
            Ok(Route::ReadResource)
        } else if str_eq(method, "prompts/list") {
            Ok(Route::ListPrompts)
        } else if str_eq(method, "prompts/get") {
            Ok(Route::GetPrompt)
        } else if str_eq(method, "ping") {
            Ok(Route::Ping)
        } else {
            Err(McpError::MethodNotFound(request.method.clone()))
        }
    }

    /// The answer to `initialize`: the protocol version, every capability but logging
    /// (each with its default settings), and the server's name and version.
    pub fn handle_initialize(&self) -> (r: InitializeResult)
        ensures
            r.protocol_version@ == self.version().text(),
            r.capabilities.tools == Some(ToolsCapability { list_changed: false }),
            r.capabilities.resources == Some(
                ResourcesCapability { subscribe: false, list_changed: false },
            ),
            r.capabilities.prompts == Some(PromptsCapability { list_changed: false }),
            r.capabilities.logging is None,
            r.server_info == self.info(),
    {
        let capabilities = ServerCapabilities {
            tools: Some(ToolsCapability::default()),
            resources: Some(ResourcesCapability::default()),
            prompts: Some(PromptsCapability::default()),
            ..ServerCapabilities::default()
        };
        InitializeResult {
            protocol_version: self.protocol_version.as_str().to_owned(),
            capabilities,
            server_info: self.server_info.clone(),
        }
    }

    /// The answer to `tools/list`: every registered tool, on one page.
    pub fn handle_list_tools(&self) -> (r: ListToolsResult)
        requires
            self.wf(),
        ensures
            r.tools@ == metadata(self.tools()),
            r.next_cursor is None,
    {
        ListToolsResult { tools: self.registry.list(), next_cursor: None }
    }

    /// The answer to `resources/list`: every registered resource, on one page.
    pub fn handle_list_resources(&self) -> (r: ListResourcesResult)
        requires
            self.wf(),
        ensures
            r.resources@ == metadata(self.resources()),
            r.next_cursor is None,
    {
        ListResourcesResult { resources: self.resource_registry.list(), next_cursor: None }
    }

    /// The answer to `prompts/list`: every registered prompt, on one page.
    pub fn handle_list_prompts(&self) -> (r: ListPromptsResult)
        requires
            self.wf(),
        ensures
            r.prompts@.len() == self.prompts().len(),
            forall|i: int|
                0 <= i < r.prompts@.len() ==> #[trigger] r.prompts@[i].same_as(
                    metadata(self.prompts())[i],
                ),
            forall|i: int|
                0 <= i < r.prompts@.len() ==> (#[trigger] r.prompts@[i]).name@
                    == self.prompts()[i].1.name@ && r.prompts@[i].description
                    == self.prompts()[i].1.description && r.prompts@[i].arguments@
                    == self.prompts()[i].1.arguments@,
            r.next_cursor is None,
    {
        ListPromptsResult { prompts: self.prompt_registry.list(), next_cursor: None }
    }

    /// The answer to `ping`: an empty JSON object.
    pub fn handle_ping() -> (v: serde_json::Value)
        ensures
            v == json_object_value(Seq::empty()),
    {
        let v = json_object(Vec::new());
        assert(Seq::<(String, serde_json::Value)>::empty().map_values(
            |e: (String, serde_json::Value)| (e.0@, e.1),
        ) =~= Seq::empty());
        v
    }

    /// What a `tools/call` takes: the named tool's handler run on the arguments, the
    /// default handler's answer, `ToolNotFound` with the name, or
    /// `InvalidParams("missing params")` when the request gives no parameters.
    pub fn handle_call_tool(&self, params: Option<CallToolParams>) -> (r: McpResult<
        Invocation<'_, T, serde_json::Value, CallToolResult>,
    >)
        requires
            self.wf(),
        ensures
            params is None ==> (r matches Err(McpError::InvalidParams(m)) && m@ == "missing params"@),
            params matches Some(p) ==> (handler_for(self.tools(), p.name@) matches Some(Some(h)) ==> (
            r matches Ok(Invocation::Run { handler, input }) && *handler == h && input == p.arguments)),
            params matches Some(p) ==> (handler_for(self.tools(), p.name@) matches Some(None) ==> (
            r matches Ok(Invocation::Answer(res)) && res.is_single_text("No handler registered"@, true))),
            params matches Some(p) ==> (handler_for(self.tools(), p.name@) is None ==> (r matches Err(
                McpError::ToolNotFound(n),
            ) && n@ == p.name@)),
    {
        let params = match params {
            Some(p) => p,
            None => return Err(McpError::InvalidParams(String::from_str("missing params"))),
        };
        match self.registry.get_handler(params.name.as_str()) {
            Some(Some(h)) => Ok(Invocation::Run { handler: h, input: params.arguments }),
            Some(None) => Ok(Invocation::Answer(default_tool_result())),
            None => Err(McpError::ToolNotFound(params.name)),
        }
    }

    /// What a `resources/read` takes: the resource's handler run on the URI, the default
    /// handler's contents, `ResourceNotFound` with the URI, or
    /// `InvalidParams("missing params")` when the request gives no parameters.
    pub fn handle_read_resource(&self, params: Option<ReadResourceParams>) -> (r: McpResult<
        Invocation<'_, R, String, ReadResourceResult>,
    >)
        requires
            self.wf(),
        ensures
            params is None ==> (r matches Err(McpError::InvalidParams(m)) && m@ == "missing params"@),
            params matches Some(p) ==> (handler_for(self.resources(), p.uri@) matches Some(Some(h)) ==> (
            r matches Ok(Invocation::Run { handler, input }) && *handler == h && input == p.uri)),
            params matches Some(p) ==> (handler_for(self.resources(), p.uri@) matches Some(None) ==> (
            r matches Ok(Invocation::Answer(res)) && is_empty_text_of(res.contents@, p.uri@))),
            params matches Some(p) ==> (handler_for(self.resources(), p.uri@) is None ==> (r matches Err(
                McpError::ResourceNotFound(u),
            ) && u@ == p.uri@)),
    {
        let params = match params {
            Some(p) => p,
            None => return Err(McpError::InvalidParams(String::from_str("missing params"))),
        };
        match self.resource_registry.get_handler(params.uri.as_str()) {
            Some(Some(h)) => Ok(Invocation::Run { handler: h, input: params.uri }),
            Some(None) => Ok(
                Invocation::Answer(
                    ReadResourceResult { contents: default_resource_contents(params.uri.as_str()) },
                ),
            ),
            None => Err(McpError::ResourceNotFound(params.uri)),
        }
    }

    /// What a `prompts/get` takes: the prompt's handler run on the arguments (JSON
    /// `null` when the request gives none), the default handler's answer, `PromptNotFound`
    /// with the name, or `InvalidParams("missing params")` when the request gives no
    /// parameters.
    pub fn handle_get_prompt(&self, params: Option<GetPromptParams>) -> (r: McpResult<
        Invocation<'_, P, serde_json::Value, GetPromptResult>,
    >)
        requires
            self.wf(),
        ensures
            params is None ==> (r matches Err(McpError::InvalidParams(m)) && m@ == "missing params"@),
            params matches Some(p) ==> (handler_for(self.prompts(), p.name@) matches Some(Some(h)) ==> (
            r matches Ok(Invocation::Run { handler, input }) && *handler == h && (p.arguments matches Some(
                a,
            ) ==> input == a) && (p.arguments is None ==> is_json_null(input)))),
            params matches Some(p) ==> (handler_for(self.prompts(), p.name@) matches Some(None) ==> (
            r matches Ok(Invocation::Answer(res)) && res.description is None && res.messages@.len() == 0)),
            params matches Some(p) ==> (handler_for(self.prompts(), p.name@) is None ==> (r matches Err(
                McpError::PromptNotFound(n),
            ) && n@ == p.name@)),
    {
        let params = match params {
            Some(p) => p,
            None => return Err(McpError::InvalidParams(String::from_str("missing params"))),
        };
        match self.prompt_registry.get_handler(params.name.as_str()) {
            Some(Some(h)) => {
                let input = match params.arguments {
                    Some(a) => a,
                    None => json_null(),
                };
                Ok(Invocation::Run { handler: h, input })
            },
            Some(None) => Ok(Invocation::Answer(default_prompt_result())),
            None => Err(McpError::PromptNotFound(params.name)),
        }
    }

    /// The response to a request: the request's identifier with the result that
    /// answering it gave, or the error that deciding or answering it gave, which the
    /// transport turns into an error response.
    pub fn respond(request: &JsonRpcRequest, result: McpResult<serde_json::Value>) -> (r: McpResult<
        JsonRpcResponse,
    >)
        ensures
            result matches Ok(v) ==> (r matches Ok(resp) && resp.jsonrpc@ == "2.0"@ && resp.id
                == request.id && resp.result == Some(v) && resp.error is None),
            result matches Err(e) ==> r == Err::<JsonRpcResponse, McpError>(e),
    {
        match result {
            Ok(v) => Ok(JsonRpcResponse::success(request.id.clone(), v)),
            Err(e) => Err(e),
        }
    }

    /// The outcome of a handler that ran as a task of its own: the handler's result, or
    /// `Internal("Handler execution failed")` when the task failed.
    pub fn handler_outcome<X>(outcome: Result<McpResult<X>, tokio::task::JoinError>) -> (r: McpResult<X>)
        ensures
            outcome matches Ok(res) ==> r == res,
            outcome is Err ==> (r matches Err(McpError::Internal(m)) && m@ == "Handler execution failed"@),
    {
        match outcome {
            Ok(res) => res,
            Err(_) => Err(McpError::Internal(String::from_str("Handler execution failed"))),
        }
    }

    /// Takes note of a notification: `notifications/initialized` completes the
    /// handshake; nothing else changes anything.
    pub fn handle_notification(&mut self, method: &str)
        requires
            old(self).wf(),
        ensures
            final(self).wf(),
            final(self).initialized_spec() == (old(self).initialized_spec() || method@
                == "notifications/initialized"@),
            final(self).info() == old(self).info(),
            final(self).version() == old(self).version(),
            final(self).tools() == old(self).tools(),
            final(self).resources() == old(self).resources(),
            final(self).prompts() == old(self).prompts(),
            final(self).tool_history() == old(self).tool_history(),
            final(self).resource_history() == old(self).resource_history(),
            final(self).prompt_history() == old(self).prompt_history(),
            final(self).notification_history() == old(self).notification_history().push(method@),
    {
        if str_eq(method, "notifications/initialized") {
            self.initialized = true;
        }
        proof {
            let ghost taken = self.notifications@.push(method@);
            assert(taken.drop_last() =~= self.notifications@);
            self.notifications = Ghost(taken);
        }
    }

    /// Whether the client has completed the handshake.
    pub fn is_initialized(&self) -> (r: bool)
        ensures
            r == self.initialized_spec(),
    {
        self.initialized
    }

    /// The name and version the server announces.
    pub fn server_info(&self) -> (r: &ServerInfo)
        ensures
            *r == self.info(),
    {
        &self.server_info
    }

    /// The tool registry.
    pub fn registry(&self) -> (r: &ToolRegistry<Option<T>>)
        requires
            self.wf(),
        ensures
            r.entries() == self.tools(),
            r.wf(),
    {
        &self.registry
    }
}

} // verus!

verus! {

/// Whether the handshake is complete after a run of notifications, starting from
/// `start`: each notification is taken in turn as `handle_notification` takes it.
pub open spec fn initialized_after(start: bool, notifications: Seq<Seq<char>>) -> bool
    decreases notifications.len(),
{
    if notifications.len() == 0 {
        start
    } else {
        initialized_after(start, notifications.drop_last()) || notifications.last()
            == "notifications/initialized"@
    }
}

/// A server that starts without the handshake has completed it after a run of
/// notifications exactly when one of them was `notifications/initialized`; so once
/// complete, it stays complete. (Registration and requests leave it unchanged.)
pub proof fn lemma_handshake_after_notifications(notifications: Seq<Seq<char>>)
    ensures
        initialized_after(false, notifications) <==> exists|i: int|
            0 <= i < notifications.len() && notifications[i] == "notifications/initialized"@,
        forall|more: Seq<Seq<char>>|
            initialized_after(false, notifications) ==> #[trigger] initialized_after(
                false,
                notifications + more,
            ),
    decreases notifications.len(),
{
    if notifications.len() > 0 {
        let init = notifications.drop_last();
        lemma_handshake_after_notifications(init);
        if initialized_after(false, init) {
            let i = choose|i: int| 0 <= i < init.len() && init[i] == "notifications/initialized"@;
            assert(notifications[i] == init[i]);
        }
        if exists|i: int| 0 <= i < notifications.len() && notifications[i] == "notifications/initialized"@ {
            let i = choose|i: int| 0 <= i < notifications.len() && notifications[i] == "notifications/initialized"@;
            if i < notifications.len() - 1 {
                assert(init[i] == notifications[i]);
            }
        }
    }
    assert forall|more: Seq<Seq<char>>|
        initialized_after(false, notifications) implies #[trigger] initialized_after(
            false,
            notifications + more,
        ) by {
        lemma_initialized_extends(notifications, more);
    }
}

/// What a server holds after any run of calls since `McpServer::new`: the handshake is
/// complete exactly when some notification taken was `notifications/initialized`
/// (so it starts incomplete and, once complete, stays complete), and each of the
/// tool, resource and prompt tables holds, for each distinct name or URI registered,
/// the last registration made under it and nothing else, so that no registration is
/// lost and none is listed twice.
pub proof fn lemma_server_history<T, R, P>(s: &McpServer<T, R, P>)
    requires
        s.wf(),
    ensures
        s.initialized_spec() <==> exists|i: int|
            0 <= i < s.notification_history().len() && s.notification_history()[i]
                == "notifications/initialized"@,
        latest_per_key(s.tools(), s.tool_history()),
        latest_per_key(s.resources(), s.resource_history()),
        latest_per_key(s.prompts(), s.prompt_history()),
{
    lemma_handshake_after_notifications(s.notification_history());
    lemma_register_sequence(s.tool_history());
    lemma_register_sequence(s.resource_history());
    lemma_register_sequence(s.prompt_history());
}

/// A completed handshake survives any further notifications.
proof fn lemma_initialized_extends(notifications: Seq<Seq<char>>, more: Seq<Seq<char>>)
    requires
        initialized_after(false, notifications),
    ensures
        initialized_after(false, notifications + more),
    decreases more.len(),
{
    if more.len() == 0 {
        assert(notifications + more =~= notifications);
    } else {
        lemma_initialized_extends(notifications, more.drop_last());
        assert((notifications + more).drop_last() =~= notifications + more.drop_last());
    }
}

} // verus!
