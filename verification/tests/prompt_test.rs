use mcp_sdk::error::McpError;
use mcp_sdk::prompt::{default_prompt_result, PromptArgumentBuilder, PromptBuilder, PromptRegistry};
use mcp_sdk::protocol::Prompt;

fn prompt(name: &str) -> Prompt {
    Prompt { name: name.into(), description: None, arguments: vec![] }
}

#[test]
fn test_prompt_registry_register_and_list() {
    let mut registry = PromptRegistry::new();
    let (name, prompt, handler) = PromptBuilder::new("greet")
        .description("Greet someone")
        .argument("name")
        .handler("greeter")
        .build();

    registry.register(name, prompt, handler);

    let prompts = registry.list();
    assert_eq!(prompts.len(), 1);
    assert_eq!(prompts[0].name, "greet");
    assert_eq!(prompts[0].description, Some("Greet someone".into()));
    assert_eq!(prompts[0].arguments.len(), 1);
    assert_eq!(prompts[0].arguments[0].name, "name");
}

#[test]
fn test_prompt_registry_get_existing() {
    let mut registry = PromptRegistry::new();
    registry.register("code_review".into(), prompt("code_review"), "critic");
    assert_eq!(registry.get("code_review").ok(), Some(&"critic"));
}

#[test]
fn test_prompt_registry_get_missing() {
    let registry: PromptRegistry<&str> = PromptRegistry::new();
    match registry.get("nonexistent") {
        Err(McpError::PromptNotFound(name)) => assert_eq!(name, "nonexistent"),
        _ => panic!("Expected PromptNotFound error"),
    }
}

#[test]
fn test_prompt_builder_basic() {
    let (name, prompt, _handler) = PromptBuilder::new("summarize")
        .description("Summarize text")
        .argument("text")
        .argument_with("max_length", |a| a.description("Max words").required())
        .handler(0u8)
        .build();

    assert_eq!(name, "summarize");
    assert_eq!(prompt.name, "summarize");
    assert_eq!(prompt.description, Some("Summarize text".into()));
    assert_eq!(prompt.arguments.len(), 2);
    assert_eq!(prompt.arguments[0].name, "text");
    assert!(!prompt.arguments[0].required);
    assert_eq!(prompt.arguments[1].name, "max_length");
    assert_eq!(prompt.arguments[1].description, Some("Max words".into()));
    assert!(prompt.arguments[1].required);
}

#[test]
fn test_prompt_builder_without_description() {
    let (name, prompt, _handler) = PromptBuilder::<u8>::new("bare").build();
    assert_eq!(name, "bare");
    assert!(prompt.description.is_none());
    assert!(prompt.arguments.is_empty());
}

#[test]
fn test_prompt_builder_without_handler_uses_default() {
    let (name, _, handler) = PromptBuilder::<u8>::new("default_prompt").build();
    assert_eq!(name, "default_prompt");
    assert!(handler.is_none());

    let result = default_prompt_result();
    assert!(result.messages.is_empty());
    assert!(result.description.is_none());
}

#[test]
fn test_prompt_builder_multiple_arguments() {
    let (_, prompt, _) = PromptBuilder::<u8>::new("translate")
        .argument("source_lang")
        .argument("target_lang")
        .argument("text")
        .argument_with("formal", |a| a.description("Formal tone").required())
        .build();

    assert_eq!(prompt.arguments.len(), 4);
    assert_eq!(prompt.arguments[0].name, "source_lang");
    assert_eq!(prompt.arguments[1].name, "target_lang");
    assert_eq!(prompt.arguments[2].name, "text");
    assert_eq!(prompt.arguments[3].name, "formal");
    assert!(prompt.arguments[3].required);
}

#[test]
fn test_prompt_builder_argument_with_description_only() {
    let (_, prompt, _) = PromptBuilder::<u8>::new("p")
        .argument_with("arg1", |a| a.description("An argument"))
        .build();

    assert_eq!(prompt.arguments.len(), 1);
    assert_eq!(prompt.arguments[0].description, Some("An argument".into()));
    assert!(!prompt.arguments[0].required);
}

#[test]
fn test_prompt_builder_argument_with_required_only() {
    let (_, prompt, _) = PromptBuilder::<u8>::new("p")
        .argument_with("arg1", |a| a.required())
        .build();

    assert_eq!(prompt.arguments.len(), 1);
    assert!(prompt.arguments[0].description.is_none());
    assert!(prompt.arguments[0].required);
}

#[test]
fn test_prompt_builder_argument_with_neither() {
    let (_, prompt, _) = PromptBuilder::<u8>::new("p").argument_with("arg1", |a| a).build();

    assert_eq!(prompt.arguments.len(), 1);
    assert!(prompt.arguments[0].description.is_none());
    assert!(!prompt.arguments[0].required);
}

#[test]
fn test_prompt_argument_builder_build() {
    let arg = PromptArgumentBuilder {
        name: "test".into(),
        description: None,
        required: false,
    }
    .description("A test arg")
    .required()
    .build();

    assert_eq!(arg.name, "test");
    assert_eq!(arg.description, Some("A test arg".into()));
    assert!(arg.required);
}

#[test]
fn test_prompt_argument_builder_default() {
    let arg = PromptArgumentBuilder {
        name: "bare".into(),
        description: None,
        required: false,
    }
    .build();

    assert_eq!(arg.name, "bare");
    assert!(arg.description.is_none());
    assert!(!arg.required);
}

#[test]
fn test_prompt_registry_multiple_prompts() {
    let mut registry = PromptRegistry::new();
    registry.register("a".into(), prompt("a"), 1u8);
    registry.register("b".into(), prompt("b"), 2u8);
    registry.register("c".into(), prompt("c"), 3u8);
    let prompts = registry.list();
    assert_eq!(prompts.len(), 3);
    assert_eq!(registry.get("b").ok(), Some(&2));
}

#[test]
fn test_prompt_registry_overwrite() {
    let mut registry = PromptRegistry::new();
    registry.register("x".into(), Prompt { name: "x".into(), description: Some("v1".into()), arguments: vec![] }, "v1");
    registry.register("x".into(), Prompt { name: "x".into(), description: Some("v2".into()), arguments: vec![] }, "v2");
    let prompts = registry.list();
    assert_eq!(prompts.len(), 1);
    assert_eq!(prompts[0].description, Some("v2".into()));
    assert_eq!(registry.get("x").ok(), Some(&"v2"));
}

#[test]
fn test_prompt_registry_empty() {
    let registry: PromptRegistry<u8> = PromptRegistry::new();
    assert!(registry.list().is_empty());
}

#[test]
fn test_prompt_builder_with_string_name() {
    let name = String::from("dynamic");
    let (n, prompt, _) = PromptBuilder::<u8>::new(&name).build();
    assert_eq!(n, "dynamic");
    assert_eq!(prompt.name, "dynamic");
}

#[test]
fn test_prompt_registry_default() {
    let registry: PromptRegistry<u8> = PromptRegistry::default();
    assert!(registry.list().is_empty());
}
