use std::borrow::Cow;

use ollama_provider::error::{Error, ErrorDetails};
use ollama_provider::inference::{
    Base64File, ContentBlock, FileWithPath, ModelInferenceRequest, ModelInferenceRequestJsonMode,
    RequestMessage, Role, Text, Thought, ToolCall, ToolResult,
};
use ollama_provider::message::{
    compose_system_message, discarded_thoughts, prepare_ollama_messages, tensorzero_to_ollama_assistant_message,
    tensorzero_to_ollama_message, tensorzero_to_ollama_system_message,
    tensorzero_to_ollama_user_message, OllamaAssistantRequestMessage, OllamaContentBlock,
    OllamaImageUrl, OllamaRequestFunctionCall, OllamaRequestMessage, OllamaRequestToolCall,
    OllamaSystemRequestMessage, OllamaToolRequestMessage, OllamaUserRequestMessage,
};
use ollama_provider::text::{contains_text, lowercase_contains};
use ollama_provider::tool::OllamaToolType;
use serde_json::Value;

fn text(text: &str) -> ContentBlock {
    ContentBlock::Text(Text {
        text: text.to_string(),
    })
}

fn tool_call(id: &str) -> ContentBlock {
    ContentBlock::ToolCall(ToolCall {
        id: id.to_string(),
        name: "get_temperature".to_string(),
        arguments: "{}".to_string(),
    })
}

fn tool_result(id: &str, result: &str) -> ContentBlock {
    ContentBlock::ToolResult(ToolResult {
        id: id.to_string(),
        name: "get_temperature".to_string(),
        result: result.to_string(),
    })
}

fn file(data: Result<&str, Error>) -> ContentBlock {
    ContentBlock::File(Box::new(FileWithPath {
        file: Base64File {
            mime_type: "image/png".to_string(),
            data: data.map(|data| data.to_string()),
        },
        storage_path: "somewhere".to_string(),
    }))
}

fn thought() -> ContentBlock {
    ContentBlock::Thought(Thought {
        text: Some("hmm".to_string()),
        signature: None,
    })
}

fn unknown(data: &str) -> ContentBlock {
    ContentBlock::Unknown {
        data: Value::String(data.to_string()),
        model_provider_name: Some("x".to_string()),
    }
}

fn ollama_text(text: &str) -> OllamaContentBlock<'_> {
    OllamaContentBlock::Text {
        text: Cow::Borrowed(text),
    }
}

fn ollama_image(url: &str) -> OllamaContentBlock<'_> {
    OllamaContentBlock::ImageUrl {
        image_url: OllamaImageUrl {
            url: url.to_string(),
        },
    }
}

fn ollama_unknown(data: &str) -> OllamaContentBlock<'_> {
    OllamaContentBlock::Unknown {
        data: Cow::Owned(Value::String(data.to_string())),
    }
}

fn system(content: &str) -> OllamaRequestMessage<'_> {
    OllamaRequestMessage::System(OllamaSystemRequestMessage {
        content: Cow::Borrowed(content),
    })
}

fn user(content: Vec<OllamaContentBlock<'_>>) -> OllamaRequestMessage<'_> {
    OllamaRequestMessage::User(OllamaUserRequestMessage { content })
}

fn tool<'a>(content: &'a str, tool_call_id: &'a str) -> OllamaRequestMessage<'a> {
    OllamaRequestMessage::Tool(OllamaToolRequestMessage {
        content,
        tool_call_id,
    })
}

fn missing_data() -> Error {
    Error::new(ErrorDetails::InternalError {
        message: "The file was not fetched".to_string(),
    })
}

fn request(
    messages: Vec<RequestMessage>,
    system: Option<&str>,
    json_mode: ModelInferenceRequestJsonMode,
) -> ModelInferenceRequest {
    ModelInferenceRequest {
        messages,
        system: system.map(|system| system.to_string()),
        tool_config: None,
        json_mode,
    }
}

fn user_message(content: Vec<ContentBlock>) -> RequestMessage {
    RequestMessage {
        role: Role::User,
        content,
    }
}

fn assistant_message(content: Vec<ContentBlock>) -> RequestMessage {
    RequestMessage {
        role: Role::Assistant,
        content,
    }
}

#[test]
fn substrings_are_found_letter_for_letter() {
    assert!(contains_text("a json b", "json"));
    assert!(contains_text("json", "json"));
    assert!(contains_text("anything", ""));
    assert!(!contains_text("JSON", "json"));
    assert!(!contains_text("jso", "json"));
}

#[test]
fn the_text_is_lowered_and_the_needle_is_not() {
    assert!(lowercase_contains("Answer in JsOn.", "json"));
    assert!(!lowercase_contains("Answer in JSON.", "JSON"));
    assert!(lowercase_contains("ÄÖ", "äö"));
}

#[test]
fn user_text_becomes_one_user_message() {
    let blocks = vec![text("Hello"), text("World")];
    assert_eq!(
        tensorzero_to_ollama_user_message(&blocks).unwrap(),
        vec![user(vec![ollama_text("Hello"), ollama_text("World")])]
    );
}

#[test]
fn tool_results_come_before_the_user_message() {
    let blocks = vec![
        text("Hello"),
        tool_result("1", "30"),
        text("World"),
        tool_result("2", "40"),
    ];
    assert_eq!(
        tensorzero_to_ollama_user_message(&blocks).unwrap(),
        vec![
            tool("30", "1"),
            tool("40", "2"),
            user(vec![ollama_text("Hello"), ollama_text("World")]),
        ]
    );
}

#[test]
fn a_user_message_of_tool_results_and_thoughts_has_no_content() {
    let blocks = vec![thought(), tool_result("1", "30")];
    assert_eq!(
        tensorzero_to_ollama_user_message(&blocks).unwrap(),
        vec![tool("30", "1")]
    );
    assert_eq!(tensorzero_to_ollama_user_message(&[]).unwrap(), vec![]);
}

#[test]
fn user_files_and_unknown_blocks_keep_their_place() {
    let blocks = vec![text("See"), file(Ok("QUJD")), unknown("u"), thought()];
    assert_eq!(
        tensorzero_to_ollama_user_message(&blocks).unwrap(),
        vec![user(vec![
            ollama_text("See"),
            ollama_image("data: image/png; base64,QUJD"),
            ollama_unknown("u"),
        ])]
    );
}

#[test]
fn tool_calls_are_refused_in_user_messages() {
    let blocks = vec![text("Hello"), tool_call("1"), file(Err(missing_data()))];
    assert_eq!(
        tensorzero_to_ollama_user_message(&blocks).unwrap_err(),
        Error::new(ErrorDetails::InvalidMessage {
            message: "Tool calls are not supported in user messages".to_string(),
        })
    );
}

#[test]
fn the_first_bad_block_decides_the_error() {
    let blocks = vec![file(Err(missing_data())), tool_call("1")];
    assert_eq!(
        tensorzero_to_ollama_user_message(&blocks).unwrap_err(),
        missing_data()
    );
    let blocks = vec![file(Err(missing_data())), tool_result("1", "30")];
    assert_eq!(
        tensorzero_to_ollama_assistant_message(&blocks).unwrap_err(),
        missing_data()
    );
}

#[test]
fn assistant_tool_calls_stand_apart_from_the_content() {
    let blocks = vec![
        text("I will look"),
        tool_call("1"),
        thought(),
        file(Ok("QUJD")),
        tool_call("2"),
        unknown("u"),
    ];
    let call = |id| OllamaRequestToolCall {
        id,
        kind: OllamaToolType::Function,
        function: OllamaRequestFunctionCall {
            name: "get_temperature",
            arguments: "{}",
        },
    };
    assert_eq!(
        tensorzero_to_ollama_assistant_message(&blocks).unwrap(),
        vec![OllamaRequestMessage::Assistant(
            OllamaAssistantRequestMessage {
                content: Some(vec![
                    ollama_text("I will look"),
                    ollama_image("data:image/png;base64,QUJD"),
                    ollama_unknown("u"),
                ]),
                tool_calls: Some(vec![call("1"), call("2")]),
            }
        )]
    );
}

#[test]
fn an_empty_assistant_message_is_still_a_message() {
    assert_eq!(
        tensorzero_to_ollama_assistant_message(&[thought()]).unwrap(),
        vec![OllamaRequestMessage::Assistant(
            OllamaAssistantRequestMessage {
                content: None,
                tool_calls: None,
            }
        )]
    );
}

#[test]
fn tool_results_are_refused_in_assistant_messages() {
    let blocks = vec![text("Hello"), tool_result("1", "30")];
    assert_eq!(
        tensorzero_to_ollama_assistant_message(&blocks).unwrap_err(),
        Error::new(ErrorDetails::InvalidMessage {
            message: "Tool results are not supported in assistant messages".to_string(),
        })
    );
}

#[test]
fn the_role_decides_how_a_message_is_converted() {
    let message = user_message(vec![text("Hello")]);
    assert_eq!(
        tensorzero_to_ollama_message(&message).unwrap(),
        vec![user(vec![ollama_text("Hello")])]
    );
    let message = assistant_message(vec![text("Hello")]);
    assert!(matches!(
        tensorzero_to_ollama_message(&message).unwrap()[0],
        OllamaRequestMessage::Assistant(_)
    ));
}

#[test]
fn a_tool_call_is_converted_alike_on_its_own() {
    let call = ToolCall {
        id: "1".to_string(),
        name: "f".to_string(),
        arguments: "{\"a\":1}".to_string(),
    };
    assert_eq!(
        OllamaRequestToolCall::from(&call),
        OllamaRequestToolCall {
            id: "1",
            kind: OllamaToolType::Function,
            function: OllamaRequestFunctionCall {
                name: "f",
                arguments: "{\"a\":1}",
            },
        }
    );
}

#[test]
fn messages_are_searched_whatever_the_case() {
    assert!(system("Use JSON").content_contains_case_insensitive("json"));
    assert!(!system("Use XML").content_contains_case_insensitive("json"));
    assert!(tool("Json!", "1").content_contains_case_insensitive("json"));
    assert!(!tool("x", "json").content_contains_case_insensitive("json"));
    assert!(user(vec![ollama_text("a"), ollama_text("JSON")])
        .content_contains_case_insensitive("json"));
    assert!(!user(vec![ollama_image("json"), ollama_unknown("json")])
        .content_contains_case_insensitive("json"));
    let assistant = |content| {
        OllamaRequestMessage::Assistant(OllamaAssistantRequestMessage {
            content,
            tool_calls: None,
        })
    };
    assert!(assistant(Some(vec![ollama_text("jSoN")])).content_contains_case_insensitive("json"));
    assert!(!assistant(Some(vec![ollama_unknown("json")]))
        .content_contains_case_insensitive("json"));
    assert!(!assistant(None).content_contains_case_insensitive("json"));
}

#[test]
fn instructions_are_asked_to_mention_json() {
    let on = ModelInferenceRequestJsonMode::On;
    assert_eq!(
        tensorzero_to_ollama_system_message(Some("Be brief."), on, &[]),
        Some(system("Response using JSON.\n\nBe brief."))
    );
    assert_eq!(
        tensorzero_to_ollama_system_message(Some("Answer in Json."), on, &[]),
        Some(system("Answer in Json."))
    );
    let messages = [user(vec![ollama_text("Give me JSON")])];
    assert_eq!(
        tensorzero_to_ollama_system_message(Some("Be brief."), on, &messages),
        Some(system("Be brief."))
    );
    assert_eq!(
        tensorzero_to_ollama_system_message(None, on, &messages),
        Some(system("Respond using JSON."))
    );
}

#[test]
fn the_line_that_asks_for_json_is_never_added_twice() {
    for mode in [
        ModelInferenceRequestJsonMode::Off,
        ModelInferenceRequestJsonMode::On,
        ModelInferenceRequestJsonMode::Strict,
    ] {
        for instructions in [None, Some(""), Some("Be brief."), Some("Use json"), Some("ΣΑΣ")] {
            let once = tensorzero_to_ollama_system_message(instructions, mode, &[]);
            if let Some(OllamaRequestMessage::System(message)) = &once {
                let twice =
                    tensorzero_to_ollama_system_message(Some(message.content.as_ref()), mode, &[]);
                assert_eq!(twice, once);
            }
        }
    }
}

#[test]
fn thoughts_are_reported_up_to_the_first_bad_block() {
    let named = |name: &str| {
        ContentBlock::Thought(Thought {
            text: Some(name.to_string()),
            signature: None,
        })
    };
    let names = |message: &RequestMessage| -> Vec<String> {
        discarded_thoughts(message)
            .iter()
            .map(|thought| thought.text.clone().unwrap())
            .collect()
    };
    let blocks = || vec![named("a"), text("x"), named("b"), tool_call("1"), named("c")];
    assert_eq!(names(&user_message(blocks())), vec!["a", "b"]);
    assert_eq!(names(&assistant_message(blocks())), vec!["a", "b", "c"]);
    let blocks = || vec![named("a"), tool_result("1", "30"), named("b"), file(Err(missing_data())), named("c")];
    assert_eq!(names(&user_message(blocks())), vec!["a", "b"]);
    assert_eq!(names(&assistant_message(blocks())), vec!["a"]);
    assert!(names(&user_message(vec![])).is_empty());
}

#[test]
fn other_modes_leave_the_instructions_alone() {
    for mode in [
        ModelInferenceRequestJsonMode::Off,
        ModelInferenceRequestJsonMode::Strict,
    ] {
        assert_eq!(
            tensorzero_to_ollama_system_message(Some("Be brief."), mode, &[]),
            Some(system("Be brief."))
        );
        assert_eq!(tensorzero_to_ollama_system_message(None, mode, &[]), None);
    }
}

#[test]
fn the_system_message_follows_from_what_is_mentioned() {
    let on = ModelInferenceRequestJsonMode::On;
    assert_eq!(
        compose_system_message(Some("s"), on, true),
        Some(system("s"))
    );
    assert_eq!(
        compose_system_message(Some("s"), on, false),
        Some(system("Response using JSON.\n\ns"))
    );
    assert_eq!(
        compose_system_message(None, on, true),
        Some(system("Respond using JSON."))
    );
}

#[test]
fn a_request_is_prepared_in_order_with_the_system_message_in_front() {
    let request = request(
        vec![
            user_message(vec![text("Hello"), tool_result("1", "30")]),
            assistant_message(vec![text("World")]),
        ],
        Some("Be brief."),
        ModelInferenceRequestJsonMode::Off,
    );
    assert_eq!(
        prepare_ollama_messages(&request).unwrap(),
        vec![
            system("Be brief."),
            tool("30", "1"),
            user(vec![ollama_text("Hello")]),
            OllamaRequestMessage::Assistant(OllamaAssistantRequestMessage {
                content: Some(vec![ollama_text("World")]),
                tool_calls: None,
            }),
        ]
    );
}

#[test]
fn a_request_without_instructions_has_no_system_message() {
    let request = request(
        vec![user_message(vec![text("Hello")])],
        None,
        ModelInferenceRequestJsonMode::Strict,
    );
    assert_eq!(
        prepare_ollama_messages(&request).unwrap(),
        vec![user(vec![ollama_text("Hello")])]
    );
}

#[test]
fn a_request_in_json_mode_always_asks_for_json() {
    for instructions in [None, Some("Be brief."), Some("Use json")] {
        for said in ["Hello", "json please"] {
            let request = request(
                vec![user_message(vec![text(said)])],
                instructions,
                ModelInferenceRequestJsonMode::On,
            );
            assert!(prepare_ollama_messages(&request)
                .unwrap()
                .iter()
                .any(|message| message.content_contains_case_insensitive("json")));
        }
    }
}

#[test]
fn the_error_of_a_file_is_passed_on() {
    for details in [
        ErrorDetails::InternalError {
            message: "gone".to_string(),
        },
        ErrorDetails::ApiKeyMissing {
            provider_name: "p".to_string(),
            message: "gone".to_string(),
        },
        ErrorDetails::Config {
            message: "gone".to_string(),
        },
        ErrorDetails::InferenceClient {
            status_code: None,
            message: "gone".to_string(),
            raw_request: Some("q".to_string()),
            raw_response: None,
            provider_type: "p".to_string(),
        },
        ErrorDetails::InferenceServer {
            message: "gone".to_string(),
            raw_request: None,
            raw_response: Some("r".to_string()),
            provider_type: "p".to_string(),
        },
        ErrorDetails::InvalidMessage {
            message: "gone".to_string(),
        },
        ErrorDetails::Serialization {
            message: "gone".to_string(),
        },
        ErrorDetails::UnsupportedModelProviderForBatchInference {
            provider_type: "p".to_string(),
        },
    ] {
        let error = Error::new(details.clone());
        let blocks = vec![text("Hello"), file(Err(error.clone()))];
        let user = tensorzero_to_ollama_user_message(&blocks).unwrap_err();
        let assistant = tensorzero_to_ollama_assistant_message(&blocks).unwrap_err();
        assert_eq!(user, error);
        assert_eq!(assistant, error);
        assert_eq!(user, Error::new(details));
    }
}

#[test]
fn the_line_goes_before_instructions_without_json() {
    let plain = request(
        vec![user_message(vec![text("Hello")])],
        Some("Be brief."),
        ModelInferenceRequestJsonMode::On,
    );
    let prepared = prepare_ollama_messages(&plain).unwrap();
    assert_eq!(prepared.len(), 2);
    assert!(prepared[0].content_contains_case_insensitive("be brief."));
    assert!(prepared[0].content_contains_case_insensitive("json"));
    assert!(!prepared[0].content_contains_case_insensitive("JSON"));
    assert!(!prepared[1].content_contains_case_insensitive("json"));
}

#[test]
fn the_first_bad_message_decides_the_error() {
    let request = request(
        vec![
            user_message(vec![text("Hello")]),
            user_message(vec![file(Err(missing_data()))]),
            assistant_message(vec![tool_result("1", "30")]),
        ],
        None,
        ModelInferenceRequestJsonMode::Off,
    );
    assert_eq!(prepare_ollama_messages(&request).unwrap_err(), missing_data());
}

#[test]
fn messages_are_copied_as_they_are() {
    let message = user_message(vec![
        text("Hello"),
        tool_call("1"),
        tool_result("2", "30"),
        file(Ok("QUJD")),
        file(Err(missing_data())),
        thought(),
        unknown("u"),
    ]);
    assert_eq!(message.clone(), message);
    for block in [ollama_text("t"), ollama_image("u"), ollama_unknown("d")] {
        assert_eq!(block.clone(), block);
    }
    let call = OllamaRequestToolCall {
        id: "1",
        kind: OllamaToolType::Function,
        function: OllamaRequestFunctionCall {
            name: "f",
            arguments: "{}",
        },
    };
    for message in [
        system("s"),
        user(vec![ollama_text("t"), ollama_image("u")]),
        tool("30", "1"),
        OllamaRequestMessage::Assistant(OllamaAssistantRequestMessage {
            content: Some(vec![ollama_unknown("d")]),
            tool_calls: Some(vec![call, call]),
        }),
        OllamaRequestMessage::Assistant(OllamaAssistantRequestMessage {
            content: None,
            tool_calls: None,
        }),
    ] {
        assert_eq!(message.clone(), message);
    }
}
