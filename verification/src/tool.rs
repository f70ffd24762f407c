//! Tools: a builder that describes a tool, and the registry that maps tool names to
//! their descriptions and handlers.

use crate::error::{McpError, McpResult};
use crate::json::{json_object, json_object_value, json_string, json_string_value};
use crate::protocol::{CallToolResult, Tool};
use crate::registry::{handler_for, insert_entry, keys, keys_distinct, latest_per_key, lemma_register_sequence, metadata, register_all, Registry};
use vstd::prelude::*;
use vstd::string::*;

verus! {

/// The input schema of a tool that declares none: an object with no properties.
pub open spec fn default_input_schema() -> serde_json::Value {
    json_object_value(
        seq![
            ("type"@, json_string_value("object"@)),
            ("properties"@, json_object_value(Seq::empty())),
        ],
    )
}

/// The result of calling a tool that was built without a handler.
pub fn default_tool_result() -> (r: CallToolResult)
    ensures
        r.is_single_text("No handler registered"@, true),
{
    CallToolResult::error("No handler registered")
}

/// Describes a tool step by step: its name, description, input schema and handler.
pub struct ToolBuilder<H> {
    name: String,
    description: Option<String>,
    input_schema: serde_json::Value,
    handler: Option<H>,
}

impl<H> ToolBuilder<H> {
    pub closed spec fn name_spec(&self) -> Seq<char> {
        self.name@
    }

    pub closed spec fn description_spec(&self) -> Option<String> {
        self.description
    }

    pub closed spec fn schema_spec(&self) -> serde_json::Value {
        self.input_schema
    }

    pub closed spec fn handler_spec(&self) -> Option<H> {
        self.handler
    }

    /// A tool with the given name, no description, the default input schema and no handler.
    pub fn new(name: &str) -> (b: Self)
        ensures
            b.name_spec() == name@,
            b.description_spec() is None,
            b.schema_spec() == default_input_schema(),
            b.handler_spec() is None,
    {
        let mut entries: Vec<(String, serde_json::Value)> = Vec::new();
        entries.push((String::from_str("type"), json_string(String::from_str("object"))));
        entries.push((String::from_str("properties"), json_object(Vec::new())));
        let ghost inner = Seq::<(String, serde_json::Value)>::empty().map_values(
            |e: (String, serde_json::Value)| (e.0@, e.1),
        );
        assert(inner =~= Seq::empty());
        let schema = json_object(entries);
        assert(entries@.map_values(|e: (String, serde_json::Value)| (e.0@, e.1)) =~= seq![
            ("type"@, json_string_value("object"@)),
            ("properties"@, json_object_value(Seq::empty())),
        ]);
        ToolBuilder { name: name.to_owned(), description: None, input_schema: schema, handler: None }
    }

    /// Sets the description.
    pub fn description(self, desc: &str) -> (b: Self)
        ensures
            b.name_spec() == self.name_spec(),
            b.description_spec() matches Some(d) && d@ == desc@,
            b.schema_spec() == self.schema_spec(),
            b.handler_spec() == self.handler_spec(),
    {
        ToolBuilder { description: Some(desc.to_owned()), ..self }
    }

    /// Sets the JSON schema of the arguments.
    pub fn schema(self, schema: serde_json::Value) -> (b: Self)
        ensures
            b.name_spec() == self.name_spec(),
            b.description_spec() == self.description_spec(),
            b.schema_spec() == schema,
            b.handler_spec() == self.handler_spec(),
    {
        ToolBuilder { input_schema: schema, ..self }
    }

    /// Sets the handler that answers calls of the tool.
    pub fn handler(self, handler: H) -> (b: Self)
        ensures
            b.name_spec() == self.name_spec(),
            b.description_spec() == self.description_spec(),
            b.schema_spec() == self.schema_spec(),
            b.handler_spec() == Some(handler),
    {
        ToolBuilder { handler: Some(handler), ..self }
    }

    /// The name, the tool description, and the handler; `None` stands for the default
    /// handler, whose every call answers `default_tool_result()`.
    pub fn build(self) -> (r: (String, Tool, Option<H>))
        ensures
            r.0@ == self.name_spec(),
            r.1.name@ == self.name_spec(),
            r.1.description == self.description_spec(),
            r.1.input_schema == self.schema_spec(),
            r.2 == self.handler_spec(),
    {
        let tool = Tool {
            name: self.name.clone(),
            description: self.description,
            input_schema: self.input_schema,
        };
        (self.name, tool, self.handler)
    }
}

/// The registered tools, by name.
pub struct ToolRegistry<H> {
    tools: Registry<Tool, H>,
}

impl<H> ToolRegistry<H> {
    /// The registered (name, tool, handler) entries, in order of first registration.
    pub closed spec fn entries(&self) -> Seq<(Seq<char>, Tool, H)> {
        self.tools.entries()
    }

    /// Every registration made since the registry was created, in order.
    pub closed spec fn history(&self) -> Seq<(Seq<char>, Tool, H)> {
        self.tools.history()
    }

    /// No two entries share a key, and the entries are what the registrations, made
    /// in turn from empty, leave.
    pub open spec fn wf(&self) -> bool {
        &&& keys_distinct(self.entries())
        &&& self.entries() == register_all(Seq::empty(), self.history())
    }

    /// An empty registry.
    pub fn new() -> (r: Self)
        ensures
            r.wf(),
            r.entries().len() == 0,
            r.history().len() == 0,
    {
        ToolRegistry { tools: Registry::new() }
    }

    /// Registers a tool under the name; a tool already registered under it is replaced.
    pub fn register(&mut self, name: String, tool: Tool, handler: H)
        requires
            old(self).wf(),
        ensures
            final(self).wf(),
            final(self).history() == old(self).history().push((name@, tool, handler)),
            final(self).entries() == insert_entry(old(self).entries(), (name@, tool, handler)),
    {
        self.tools.register(name, tool, handler);
    }

    /// The descriptions of all registered tools, in order of first registration.
    pub fn list(&self) -> (r: Vec<Tool>)
        requires
            self.wf(),
        ensures
            r@ == metadata(self.entries()),
    {
        let r = self.tools.list();
        assert(r@ =~= metadata(self.entries()));
        r
    }

    /// The handler registered under the name.
    pub fn get_handler(&self, name: &str) -> (r: Option<&H>)
        requires
            self.wf(),
        ensures
            r matches Some(h) ==> handler_for(self.entries(), name@) == Some(*h),
            r is None ==> handler_for(self.entries(), name@) is None,
    {
        self.tools.get(name)
    }

    /// The handler that a call of the named tool runs, or `ToolNotFound` with the name.
    pub fn call(&self, name: &str) -> (r: McpResult<&H>)
        requires
            self.wf(),
        ensures
            r matches Ok(h) ==> handler_for(self.entries(), name@) == Some(*h),
            r matches Err(e) ==> (e matches McpError::ToolNotFound(n) && n@ == name@),
            r is Err <==> handler_for(self.entries(), name@) is None,
    {
        match self.tools.get(name) {
            Some(h) => Ok(h),
            None => Err(McpError::ToolNotFound(name.to_owned())),
        }
    }
}

/// After any run of registrations since `ToolRegistry::new`, the registry holds, for
/// each distinct name registered, the tool and handler of the last registration
/// under that name, and nothing else: `list` gives one tool per distinct name.
pub proof fn lemma_tool_registry_history<H>(r: &ToolRegistry<H>)
    requires
        r.wf(),
    ensures
        latest_per_key(r.entries(), r.history()),
        metadata(r.entries()).len() == keys(r.history()).to_set().len(),
{
    lemma_register_sequence(r.history());
}

impl<H> Default for ToolRegistry<H> {
    fn default() -> (r: Self)
        ensures
            r.wf(),
            r.entries().len() == 0,
            r.history().len() == 0,
    {
        ToolRegistry::new()
    }
}

} // verus!
