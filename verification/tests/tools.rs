use ollama_provider::inference::{ModelInferenceRequest, ModelInferenceRequestJsonMode};
use ollama_provider::tool::{
    prepare_ollama_tools, OllamaFunction, OllamaTool, OllamaToolChoice, OllamaToolChoiceString,
    OllamaToolType, SpecificToolChoice, SpecificToolFunction, ToolCallConfig, ToolChoice,
    ToolConfig,
};
use serde_json::Value;

fn tool(name: &str, strict: bool) -> ToolConfig {
    ToolConfig {
        name: name.to_string(),
        description: format!("{name} it"),
        parameters: Value::String(format!("{name} parameters")),
        strict,
    }
}

fn request(tool_config: Option<ToolCallConfig>) -> ModelInferenceRequest {
    ModelInferenceRequest {
        messages: vec![],
        system: None,
        tool_config,
        json_mode: ModelInferenceRequestJsonMode::Off,
    }
}

#[test]
fn nothing_is_said_of_tools_where_there_are_none() {
    assert_eq!(prepare_ollama_tools(&request(None)), (None, None, None));
    let config = ToolCallConfig {
        tools_available: vec![],
        tool_choice: ToolChoice::Required,
        parallel_tool_calls: Some(true),
    };
    assert_eq!(
        prepare_ollama_tools(&request(Some(config))),
        (None, None, None)
    );
}

#[test]
fn tools_are_converted_in_order() {
    let config = ToolCallConfig {
        tools_available: vec![tool("a", true), tool("b", false)],
        tool_choice: ToolChoice::Auto,
        parallel_tool_calls: Some(false),
    };
    let request = request(Some(config));
    let (tools, choice, parallel) = prepare_ollama_tools(&request);
    let a = Value::String("a parameters".to_string());
    let b = Value::String("b parameters".to_string());
    assert_eq!(
        tools.unwrap(),
        vec![
            OllamaTool {
                kind: OllamaToolType::Function,
                function: OllamaFunction {
                    name: "a",
                    description: Some("a it"),
                    parameters: &a,
                },
                strict: true,
            },
            OllamaTool {
                kind: OllamaToolType::Function,
                function: OllamaFunction {
                    name: "b",
                    description: Some("b it"),
                    parameters: &b,
                },
                strict: false,
            },
        ]
    );
    assert_eq!(
        choice,
        Some(OllamaToolChoice::String(OllamaToolChoiceString::Auto))
    );
    assert_eq!(parallel, Some(false));
}

#[test]
fn every_tool_choice_has_its_counterpart() {
    assert_eq!(
        OllamaToolChoice::from(&ToolChoice::NoTool),
        OllamaToolChoice::String(OllamaToolChoiceString::NoTool)
    );
    assert_eq!(
        OllamaToolChoice::from(&ToolChoice::Required),
        OllamaToolChoice::String(OllamaToolChoiceString::Required)
    );
    assert_eq!(
        OllamaToolChoice::from(&ToolChoice::Specific("f".to_string())),
        OllamaToolChoice::Specific(SpecificToolChoice {
            kind: OllamaToolType::Function,
            function: SpecificToolFunction { name: "f" },
        })
    );
}

#[test]
fn by_default_no_tool_is_called() {
    assert_eq!(
        OllamaToolChoice::default(),
        OllamaToolChoice::from(&ToolChoice::NoTool)
    );
}
