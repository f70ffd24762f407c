use mcp_sdk::error::McpError;
use mcp_sdk::protocol::{Resource, ResourceContents};
use mcp_sdk::resource::{default_resource_contents, ResourceBuilder, ResourceRegistry};

fn resource(uri: &str, name: &str) -> Resource {
    Resource { uri: uri.into(), name: name.into(), description: None, mime_type: None }
}

#[test]
fn test_resource_registry_register_and_list() {
    let mut registry = ResourceRegistry::new();
    let (uri, resource, handler) = ResourceBuilder::new("file:///test.txt", "Test File")
        .description("A test resource")
        .mime_type("text/plain")
        .handler("reader")
        .build();

    registry.register(uri, resource, handler);

    let resources = registry.list();
    assert_eq!(resources.len(), 1);
    assert_eq!(resources[0].uri, "file:///test.txt");
    assert_eq!(resources[0].name, "Test File");
    assert_eq!(resources[0].description, Some("A test resource".into()));
    assert_eq!(resources[0].mime_type, Some("text/plain".into()));
}

#[test]
fn test_resource_registry_read_existing() {
    let mut registry = ResourceRegistry::new();
    registry.register("file:///data.json".into(), resource("file:///data.json", "Data"), "data-reader");
    assert_eq!(registry.read("file:///data.json").ok(), Some(&"data-reader"));
}

#[test]
fn test_resource_registry_read_missing() {
    let registry: ResourceRegistry<&str> = ResourceRegistry::new();
    match registry.read("file:///nonexistent") {
        Err(McpError::ResourceNotFound(uri)) => assert_eq!(uri, "file:///nonexistent"),
        _ => panic!("Expected ResourceNotFound error"),
    }
}

#[test]
fn test_resource_builder_basic() {
    let (uri, resource, handler) = ResourceBuilder::new("file:///log.txt", "Log File")
        .description("Application log")
        .mime_type("text/plain")
        .handler(3u8)
        .build();

    assert_eq!(uri, "file:///log.txt");
    assert_eq!(resource.uri, "file:///log.txt");
    assert_eq!(resource.name, "Log File");
    assert_eq!(resource.description, Some("Application log".into()));
    assert_eq!(resource.mime_type, Some("text/plain".into()));
    assert_eq!(handler, Some(3));
}

#[test]
fn test_resource_builder_without_description() {
    let (uri, resource, _handler) = ResourceBuilder::<u8>::new("file:///bare.txt", "Bare").build();
    assert_eq!(uri, "file:///bare.txt");
    assert!(resource.description.is_none());
    assert!(resource.mime_type.is_none());
}

#[test]
fn test_resource_builder_without_mime_type() {
    let (_, resource, _) = ResourceBuilder::<u8>::new("file:///doc.md", "Doc")
        .description("A doc")
        .build();
    assert_eq!(resource.description, Some("A doc".into()));
    assert!(resource.mime_type.is_none());
}

#[test]
fn test_resource_builder_without_handler_uses_default() {
    let (uri, _resource, handler) = ResourceBuilder::<u8>::new("file:///default", "Default").build();
    assert_eq!(uri, "file:///default");
    assert!(handler.is_none());

    let contents = default_resource_contents("file:///default");
    assert_eq!(contents.len(), 1);
    match &contents[0] {
        ResourceContents::Text { uri, text, mime_type } => {
            assert_eq!(uri, "file:///default");
            assert!(text.is_empty());
            assert!(mime_type.is_none());
        }
        _ => panic!("Expected text content"),
    }
}

#[test]
fn test_resource_registry_multiple_resources() {
    let mut registry = ResourceRegistry::new();
    registry.register("file:///a".into(), resource("file:///a", "A"), 1u8);
    registry.register("file:///b".into(), resource("file:///b", "B"), 2u8);
    assert_eq!(registry.list().len(), 2);
}

#[test]
fn test_resource_registry_overwrite() {
    let mut registry = ResourceRegistry::new();
    registry.register("file:///x".into(), resource("file:///x", "v1"), "v1");
    registry.register("file:///x".into(), resource("file:///x", "v2"), "v2");
    let resources = registry.list();
    assert_eq!(resources.len(), 1);
    assert_eq!(resources[0].name, "v2");
    assert_eq!(registry.read("file:///x").ok(), Some(&"v2"));
}

#[test]
fn test_resource_registry_empty() {
    let registry: ResourceRegistry<u8> = ResourceRegistry::new();
    assert!(registry.list().is_empty());
}

#[test]
fn test_resource_builder_with_string_args() {
    let uri = format!("file:///{}", "dynamic");
    let name = String::from("Dynamic");
    let (u, resource, _) = ResourceBuilder::<u8>::new(&uri, &name).build();
    assert_eq!(u, "file:///dynamic");
    assert_eq!(resource.name, "Dynamic");
}

#[test]
fn test_resource_registry_default() {
    let registry: ResourceRegistry<u8> = ResourceRegistry::default();
    assert!(registry.list().is_empty());
}
