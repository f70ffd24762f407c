//! Resources: a builder that describes a resource, and the registry that maps URIs to
//! their descriptions and handlers.

use crate::error::{McpError, McpResult};
use crate::protocol::{Resource, ResourceContents};
use crate::registry::{handler_for, insert_entry, keys_distinct, metadata, register_all, Registry};
use vstd::prelude::*;

verus! {

/// The contents are one empty text content, without MIME type, for the URI.
pub open spec fn is_empty_text_of(contents: Seq<ResourceContents>, uri: Seq<char>) -> bool {
    &&& contents.len() == 1
    &&& contents[0] matches ResourceContents::Text { uri: u, mime_type, text } && u@ == uri
        && mime_type is None && text@.len() == 0
}

/// What reading a resource that was built without a handler yields: one empty text
/// content for the URI that was read.
pub fn default_resource_contents(uri: &str) -> (r: Vec<ResourceContents>)
    ensures
        is_empty_text_of(r@, uri@),
{
    let mut r: Vec<ResourceContents> = Vec::new();
    r.push(ResourceContents::Text { uri: uri.to_owned(), mime_type: None, text: String::new() });
    r
}

/// Describes a resource step by step: its URI, name, description, MIME type and handler.
pub struct ResourceBuilder<H> {
    uri: String,
    name: String,
    description: Option<String>,
    mime_type: Option<String>,
    handler: Option<H>,
}

impl<H> ResourceBuilder<H> {
    pub closed spec fn uri_spec(&self) -> Seq<char> {
        self.uri@
    }

    pub closed spec fn name_spec(&self) -> Seq<char> {
        self.name@
    }

    pub closed spec fn description_spec(&self) -> Option<String> {
        self.description
    }

    pub closed spec fn mime_type_spec(&self) -> Option<String> {
        self.mime_type
    }

    pub closed spec fn handler_spec(&self) -> Option<H> {
        self.handler
    }

    /// A resource with the given URI and name, and nothing else set.
    pub fn new(uri: &str, name: &str) -> (b: Self)
        ensures
            b.uri_spec() == uri@,
            b.name_spec() == name@,
            b.description_spec() is None,
            b.mime_type_spec() is None,
            b.handler_spec() is None,
    {
        ResourceBuilder {
            uri: uri.to_owned(),
            name: name.to_owned(),
            description: None,
            mime_type: None,
            handler: None,
        }
    }

    /// Sets the description.
    pub fn description(self, desc: &str) -> (b: Self)
        ensures
            b.uri_spec() == self.uri_spec(),
            b.name_spec() == self.name_spec(),
            b.description_spec() matches Some(d) && d@ == desc@,
            b.mime_type_spec() == self.mime_type_spec(),
            b.handler_spec() == self.handler_spec(),
    {
        ResourceBuilder { description: Some(desc.to_owned()), ..self }
    }

    /// Sets the MIME type.
    pub fn mime_type(self, mime: &str) -> (b: Self)
        ensures
            b.uri_spec() == self.uri_spec(),
            b.name_spec() == self.name_spec(),
            b.description_spec() == self.description_spec(),
            b.mime_type_spec() matches Some(m) && m@ == mime@,
            b.handler_spec() == self.handler_spec(),
    {
        ResourceBuilder { mime_type: Some(mime.to_owned()), ..self }
    }

    /// Sets the handler that answers reads of the resource.
    pub fn handler(self, handler: H) -> (b: Self)
        ensures
            b.uri_spec() == self.uri_spec(),
            b.name_spec() == self.name_spec(),
            b.description_spec() == self.description_spec(),
            b.mime_type_spec() == self.mime_type_spec(),
            b.handler_spec() == Some(handler),
    {
        ResourceBuilder { handler: Some(handler), ..self }
    }

    /// The URI, the resource description, and the handler; `None` stands for the
    /// default handler, whose every read yields `default_resource_contents(uri)`.
    pub fn build(self) -> (r: (String, Resource, Option<H>))
        ensures
            r.0@ == self.uri_spec(),
            r.1.uri@ == self.uri_spec(),
            r.1.name@ == self.name_spec(),
            r.1.description == self.description_spec(),
            r.1.mime_type == self.mime_type_spec(),
            r.2 == self.handler_spec(),
    {
        let resource = Resource {
            uri: self.uri.clone(),
            name: self.name,
            description: self.description,
            mime_type: self.mime_type,
        };
        (self.uri, resource, self.handler)
    }
}

/// The registered resources, by URI.
pub struct ResourceRegistry<H> {
    resources: Registry<Resource, H>,
}

impl<H> ResourceRegistry<H> {
    /// The registered (URI, resource, handler) entries, in order of first registration.
    pub closed spec fn entries(&self) -> Seq<(Seq<char>, Resource, H)> {
        self.resources.entries()
    }

    /// Every registration made since the registry was created, in order.
    pub closed spec fn history(&self) -> Seq<(Seq<char>, Resource, H)> {
        self.resources.history()
    }

    /// No two entries share a key, and the entries are what the registrations, made
    /// in turn from empty, leave.
    pub open spec fn wf(&self) -> bool {
        &&& keys_distinct(self.entries())
        &&& self.entries() == register_all(Seq::empty(), self.history())
    }

    /// An empty registry.
    pub fn new() -> (r: Self)
        ensures
            r.wf(),
            r.entries().len() == 0,
            r.history().len() == 0,
    {
        ResourceRegistry { resources: Registry::new() }
    }

    /// Registers a resource under the URI; one already registered under it is replaced.
    pub fn register(&mut self, uri: String, resource: Resource, handler: H)
        requires
            old(self).wf(),
        ensures
            final(self).wf(),
            final(self).history() == old(self).history().push((uri@, resource, handler)),
            final(self).entries() == insert_entry(old(self).entries(), (uri@, resource, handler)),
    {
        self.resources.register(uri, resource, handler);
    }

    /// The descriptions of all registered resources, in order of first registration.
    pub fn list(&self) -> (r: Vec<Resource>)
        requires
            self.wf(),
        ensures
            r@ == metadata(self.entries()),
    {
        let r = self.resources.list();
        assert(r@ =~= metadata(self.entries()));
        r
    }

    /// The handler registered under the URI.
    pub fn get_handler(&self, uri: &str) -> (r: Option<&H>)
        requires
            self.wf(),
        ensures
            r matches Some(h) ==> handler_for(self.entries(), uri@) == Some(*h),
            r is None ==> handler_for(self.entries(), uri@) is None,
    {
        self.resources.get(uri)
    }

    /// The handler that a read of the URI runs, or `ResourceNotFound` with the URI.
    pub fn read(&self, uri: &str) -> (r: McpResult<&H>)
        requires
            self.wf(),
        ensures
            r matches Ok(h) ==> handler_for(self.entries(), uri@) == Some(*h),
            r matches Err(e) ==> (e matches McpError::ResourceNotFound(u) && u@ == uri@),
            r is Err <==> handler_for(self.entries(), uri@) is None,
    {
        match self.resources.get(uri) {
            Some(h) => Ok(h),
            None => Err(McpError::ResourceNotFound(uri.to_owned())),
        }
    }
}

impl<H> Default for ResourceRegistry<H> {
    fn default() -> (r: Self)
        ensures
            r.wf(),
            r.entries().len() == 0,
            r.history().len() == 0,
    {
        ResourceRegistry::new()
    }
}

} // verus!
