//! Prompts: builders that describe a prompt and its arguments, and the registry that
//! maps prompt names to their descriptions and handlers.

use crate::error::{McpError, McpResult};
use crate::protocol::{GetPromptResult, Prompt, PromptArgument};
use crate::registry::{handler_for, insert_entry, keys_distinct, metadata, register_all, Registry};
use vstd::prelude::*;

verus! {

/// What requesting a prompt that was built without a handler yields: no description
/// and no messages.
pub fn default_prompt_result() -> (r: GetPromptResult)
    ensures
        r.description is None,
        r.messages@.len() == 0,
{
    GetPromptResult { description: None, messages: Vec::new() }
}

/// Describes a prompt argument: its name, description, and whether it is required.
pub struct PromptArgumentBuilder {
    pub name: String,
    pub description: Option<String>,
    pub required: bool,
}

impl PromptArgumentBuilder {
    /// The argument this builder describes.
    pub open spec fn argument_spec(self) -> PromptArgument {
        PromptArgument { name: self.name, description: self.description, required: self.required }
    }

    /// Sets the description.
    pub fn description(self, desc: &str) -> (b: Self)
        ensures
            b.name == self.name,
            b.description matches Some(d) && d@ == desc@,
            b.required == self.required,
    {
        PromptArgumentBuilder { description: Some(desc.to_owned()), ..self }
    }

    /// Marks the argument as required.
    pub fn required(self) -> (b: Self)
        ensures
            b.name == self.name,
            b.description == self.description,
            b.required,
    {
        PromptArgumentBuilder { required: true, ..self }
    }

    /// The argument.
    pub fn build(self) -> (a: PromptArgument)
        ensures
            a == self.argument_spec(),
    {
        PromptArgument { name: self.name, description: self.description, required: self.required }
    }
}

/// Describes a prompt step by step: its name, description, arguments and handler.
pub struct PromptBuilder<H> {
    name: String,
    description: Option<String>,
    arguments: Vec<PromptArgument>,
    handler: Option<H>,
}

impl<H> PromptBuilder<H> {
    pub closed spec fn name_spec(&self) -> Seq<char> {
        self.name@
    }

    pub closed spec fn description_spec(&self) -> Option<String> {
        self.description
    }

    pub closed spec fn arguments_spec(&self) -> Seq<PromptArgument> {
        self.arguments@
    }

    pub closed spec fn handler_spec(&self) -> Option<H> {
        self.handler
    }

    /// A prompt with the given name, no description, no arguments and no handler.
    pub fn new(name: &str) -> (b: Self)
        ensures
            b.name_spec() == name@,
            b.description_spec() is None,
            b.arguments_spec().len() == 0,
            b.handler_spec() is None,
    {
        PromptBuilder { name: name.to_owned(), description: None, arguments: Vec::new(), handler: None }
    }

    /// Sets the description.
    pub fn description(self, desc: &str) -> (b: Self)
        ensures
            b.name_spec() == self.name_spec(),
            b.description_spec() matches Some(d) && d@ == desc@,
            b.arguments_spec() == self.arguments_spec(),
            b.handler_spec() == self.handler_spec(),
    {
        PromptBuilder { description: Some(desc.to_owned()), ..self }
    }

    /// Adds an optional argument without description.
    pub fn argument(self, name: &str) -> (b: Self)
        ensures
            b.name_spec() == self.name_spec(),
            b.description_spec() == self.description_spec(),
            b.arguments_spec().len() == self.arguments_spec().len() + 1,
            b.arguments_spec().drop_last() == self.arguments_spec(),
            b.arguments_spec().last().name@ == name@,
            b.arguments_spec().last().description is None,
            !b.arguments_spec().last().required,
            b.handler_spec() == self.handler_spec(),
    {
        let mut s = self;
        s.arguments.push(PromptArgument { name: name.to_owned(), description: None, required: false });
        assert(s.arguments@.drop_last() =~= self.arguments@);
        s
    }

    /// Adds an argument that `configure` describes, starting from an optional argument
    /// with the given name and no description.
    pub fn argument_with<F>(self, name: &str, configure: F) -> (b: Self) where
        F: FnOnce(PromptArgumentBuilder) -> PromptArgumentBuilder,

        requires
            forall|a: PromptArgumentBuilder|
                a.name@ == name@ && a.description is None && !a.required ==> #[trigger] configure.requires((a,)),
        ensures
            b.name_spec() == self.name_spec(),
            b.description_spec() == self.description_spec(),
            b.arguments_spec().len() == self.arguments_spec().len() + 1,
            b.arguments_spec().drop_last() == self.arguments_spec(),
            exists|start: PromptArgumentBuilder, end: PromptArgumentBuilder|
                start.name@ == name@ && start.description is None && !start.required
                    && #[trigger] configure.ensures((start,), end)
                    && b.arguments_spec().last() == end.argument_spec(),
            b.handler_spec() == self.handler_spec(),
    {
        let start = PromptArgumentBuilder { name: name.to_owned(), description: None, required: false };
        let end = configure(start);
        let mut s = self;
        s.arguments.push(end.build());
        assert(s.arguments@.drop_last() =~= self.arguments@);
        s
    }

    /// Sets the handler that answers requests for the prompt.
    pub fn handler(self, handler: H) -> (b: Self)
        ensures
            b.name_spec() == self.name_spec(),
            b.description_spec() == self.description_spec(),
            b.arguments_spec() == self.arguments_spec(),
            b.handler_spec() == Some(handler),
    {
        PromptBuilder { handler: Some(handler), ..self }
    }

    /// The name, the prompt description, and the handler; `None` stands for the default
    /// handler, whose every request yields `default_prompt_result()`.
    pub fn build(self) -> (r: (String, Prompt, Option<H>))
        ensures
            r.0@ == self.name_spec(),
            r.1.name@ == self.name_spec(),
            r.1.description == self.description_spec(),
            r.1.arguments@ == self.arguments_spec(),
            r.2 == self.handler_spec(),
    {
        let prompt = Prompt {
            name: self.name.clone(),
            description: self.description,
            arguments: self.arguments,
        };
        (self.name, prompt, self.handler)
    }
}

/// The registered prompts, by name.
pub struct PromptRegistry<H> {
    prompts: Registry<Prompt, H>,
}

impl<H> PromptRegistry<H> {
    /// The registered (name, prompt, handler) entries, in order of first registration.
    pub closed spec fn entries(&self) -> Seq<(Seq<char>, Prompt, H)> {
        self.prompts.entries()
    }

    /// Every registration made since the registry was created, in order.
    pub closed spec fn history(&self) -> Seq<(Seq<char>, Prompt, H)> {
        self.prompts.history()
    }

    /// No two entries share a key, and the entries are what the registrations, made
    /// in turn from empty, leave.
    pub open spec fn wf(&self) -> bool {
        &&& keys_distinct(self.entries())
        &&& self.entries() == register_all(Seq::empty(), self.history())
    }

    /// An empty registry.
    pub fn new() -> (r: Self)
        ensures
            r.wf(),
            r.entries().len() == 0,
            r.history().len() == 0,
    {
        PromptRegistry { prompts: Registry::new() }
    }

    /// Registers a prompt under the name; one already registered under it is replaced.
    pub fn register(&mut self, name: String, prompt: Prompt, handler: H)
        requires
            old(self).wf(),
        ensures
            final(self).wf(),
            final(self).history() == old(self).history().push((name@, prompt, handler)),
            final(self).entries() == insert_entry(old(self).entries(), (name@, prompt, handler)),
    {
        self.prompts.register(name, prompt, handler);
    }

    /// The descriptions of all registered prompts, in order of first registration.
    pub fn list(&self) -> (r: Vec<Prompt>)
        requires
            self.wf(),
        ensures
            r@.len() == self.entries().len(),
            forall|i: int| 0 <= i < r@.len() ==> #[trigger] r@[i].same_as(metadata(self.entries())[i]),
            forall|i: int|
                0 <= i < r@.len() ==> (#[trigger] r@[i]).name@ == self.entries()[i].1.name@
                    && r@[i].description == self.entries()[i].1.description && r@[i].arguments@
                    == self.entries()[i].1.arguments@,
    {
        self.prompts.list()
    }

    /// The handler registered under the name.
    pub fn get_handler(&self, name: &str) -> (r: Option<&H>)
        requires
            self.wf(),
        ensures
            r matches Some(h) ==> handler_for(self.entries(), name@) == Some(*h),
            r is None ==> handler_for(self.entries(), name@) is None,
    {
        self.prompts.get(name)
    }

    /// The handler that a request for the named prompt runs, or `PromptNotFound` with the name.
    pub fn get(&self, name: &str) -> (r: McpResult<&H>)
        requires
            self.wf(),
        ensures
            r matches Ok(h) ==> handler_for(self.entries(), name@) == Some(*h),
            r matches Err(e) ==> (e matches McpError::PromptNotFound(n) && n@ == name@),
            r is Err <==> handler_for(self.entries(), name@) is None,
    {
        match self.prompts.get(name) {
            Some(h) => Ok(h),
            None => Err(McpError::PromptNotFound(name.to_owned())),
        }
    }
}

impl<H> Default for PromptRegistry<H> {
    fn default() -> (r: Self)
        ensures
            r.wf(),
            r.entries().len() == 0,
            r.history().len() == 0,
    {
        PromptRegistry::new()
    }
}

} // verus!
