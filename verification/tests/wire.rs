use std::borrow::Cow;

use ollama_provider::credentials::OllamaCredentials;
use ollama_provider::inference::{ModelInferenceRequest, ModelInferenceRequestJsonMode};
use ollama_provider::json::Json;
use ollama_provider::message::{
    OllamaAssistantRequestMessage, OllamaContentBlock, OllamaImageUrl, OllamaRequestFunctionCall,
    OllamaRequestMessage, OllamaRequestToolCall, OllamaSystemRequestMessage,
    OllamaToolRequestMessage, OllamaUserRequestMessage,
};
use ollama_provider::provider::OllamaProvider;
use ollama_provider::request::{Double, OllamaFormat, OllamaOptions, OllamaRequest};
use ollama_provider::response::{OllamaChatChunk, OllamaChatChunkMessage};
use ollama_provider::tool::{
    OllamaFunction, OllamaTool, OllamaToolChoice, OllamaToolChoiceString, OllamaToolType,
    SpecificToolChoice, SpecificToolFunction,
};
use ollama_provider::wire::{serialize_optional_text_content_vec, serialize_text_content_vec};
use serde_json::Value;

fn text(text: &str) -> OllamaContentBlock<'_> {
    OllamaContentBlock::Text {
        text: Cow::Borrowed(text),
    }
}

fn object<'a>(members: Vec<(&'a str, Json<'a>)>) -> Json<'a> {
    Json::Object(members)
}

fn text_json(text: &str) -> Json<'_> {
    object(vec![("type", Json::Str("text")), ("text", Json::Str(text))])
}

fn no_options() -> OllamaOptions {
    OllamaOptions {
        mirostat: None,
        mirostat_eta: None,
        mirostat_tau: None,
        num_ctx: None,
        repeat_last_n: None,
        repeat_penalty: None,
        temperature: None,
        seed: None,
        stop: None,
        tfs_z: None,
        num_predict: None,
        top_k: None,
        top_p: None,
        min_p: None,
    }
}

#[test]
fn a_single_text_block_is_written_as_its_text() {
    assert_eq!(
        serialize_text_content_vec(&vec![text("Hello")]),
        Json::Str("Hello")
    );
    assert_eq!(
        serialize_optional_text_content_vec(&Some(vec![text("Hello")])),
        Json::Str("Hello")
    );
}

#[test]
fn other_contents_are_written_as_blocks() {
    assert_eq!(
        serialize_text_content_vec(&vec![text("a"), text("b")]),
        Json::Array(vec![text_json("a"), text_json("b")])
    );
    assert_eq!(serialize_text_content_vec(&vec![]), Json::Array(vec![]));
    assert_eq!(
        serialize_text_content_vec(&vec![OllamaContentBlock::ImageUrl {
            image_url: OllamaImageUrl {
                url: "u".to_string()
            }
        }]),
        Json::Array(vec![object(vec![
            ("type", Json::Str("image_url")),
            ("image_url", object(vec![("url", Json::Str("u"))])),
        ])])
    );
    assert_eq!(serialize_optional_text_content_vec(&None), Json::Null);
}

#[test]
fn an_unknown_block_is_written_as_it_is() {
    let value = Value::String("whatever".to_string());
    let borrowed = OllamaContentBlock::Unknown {
        data: Cow::Borrowed(&value),
    };
    assert_eq!(borrowed.serialize(), Json::Raw(&value));
    let owned = OllamaContentBlock::Unknown {
        data: Cow::Owned(value.clone()),
    };
    assert_eq!(owned.serialize(), Json::Raw(&value));
}

#[test]
fn messages_say_first_whose_they_are() {
    let system = OllamaRequestMessage::System(OllamaSystemRequestMessage {
        content: Cow::Owned("s".to_string()),
    });
    assert_eq!(
        system.serialize(),
        object(vec![
            ("role", Json::Str("system")),
            ("content", Json::Str("s"))
        ])
    );
    let user = OllamaRequestMessage::User(OllamaUserRequestMessage {
        content: vec![text("a"), text("b")],
    });
    assert_eq!(
        user.serialize(),
        object(vec![
            ("role", Json::Str("user")),
            ("content", Json::Array(vec![text_json("a"), text_json("b")])),
        ])
    );
    let tool = OllamaRequestMessage::Tool(OllamaToolRequestMessage {
        content: "30",
        tool_call_id: "1",
    });
    assert_eq!(
        tool.serialize(),
        object(vec![
            ("role", Json::Str("tool")),
            ("content", Json::Str("30")),
            ("tool_call_id", Json::Str("1")),
        ])
    );
}

#[test]
fn an_assistant_message_leaves_out_what_it_does_not_have() {
    let empty = OllamaRequestMessage::Assistant(OllamaAssistantRequestMessage {
        content: None,
        tool_calls: None,
    });
    assert_eq!(
        empty.serialize(),
        object(vec![("role", Json::Str("assistant"))])
    );
    let full = OllamaRequestMessage::Assistant(OllamaAssistantRequestMessage {
        content: Some(vec![text("a")]),
        tool_calls: Some(vec![OllamaRequestToolCall {
            id: "1",
            kind: OllamaToolType::Function,
            function: OllamaRequestFunctionCall {
                name: "f",
                arguments: "{}",
            },
        }]),
    });
    assert_eq!(
        full.serialize(),
        object(vec![
            ("role", Json::Str("assistant")),
            ("content", Json::Str("a")),
            (
                "tool_calls",
                Json::Array(vec![object(vec![
                    ("id", Json::Str("1")),
                    ("type", Json::Str("function")),
                    (
                        "function",
                        object(vec![
                            ("name", Json::Str("f")),
                            ("arguments", Json::Str("{}")),
                        ])
                    ),
                ])])
            ),
        ])
    );
}

#[test]
fn tools_and_choices_are_written() {
    let parameters = Value::Bool(true);
    let tool = |description| OllamaTool {
        kind: OllamaToolType::Function,
        function: OllamaFunction {
            name: "f",
            description,
            parameters: &parameters,
        },
        strict: true,
    };
    assert_eq!(
        tool(Some("d")).serialize(),
        object(vec![
            ("type", Json::Str("function")),
            (
                "function",
                object(vec![
                    ("name", Json::Str("f")),
                    ("description", Json::Str("d")),
                    ("parameters", Json::Raw(&parameters)),
                ])
            ),
            ("strict", Json::Bool(true)),
        ])
    );
    assert_eq!(
        tool(None).serialize(),
        object(vec![
            ("type", Json::Str("function")),
            (
                "function",
                object(vec![
                    ("name", Json::Str("f")),
                    ("parameters", Json::Raw(&parameters)),
                ])
            ),
            ("strict", Json::Bool(true)),
        ])
    );
    for (choice, word) in [
        (OllamaToolChoiceString::NoTool, "none"),
        (OllamaToolChoiceString::Auto, "auto"),
        (OllamaToolChoiceString::Required, "required"),
    ] {
        assert_eq!(
            OllamaToolChoice::String(choice).serialize(),
            Json::Str(word)
        );
    }
    let specific = OllamaToolChoice::Specific(SpecificToolChoice {
        kind: OllamaToolType::Function,
        function: SpecificToolFunction { name: "f" },
    });
    assert_eq!(
        specific.serialize(),
        object(vec![
            ("type", Json::Str("function")),
            ("function", object(vec![("name", Json::Str("f"))])),
        ])
    );
}

#[test]
fn only_the_options_that_are_set_are_written() {
    assert_eq!(no_options().serialize(), object(vec![]));
    let options = OllamaOptions {
        mirostat: Some(-1),
        temperature: Some(Double {
            bits: 0.5f64.to_bits(),
        }),
        stop: Some(vec!["a".to_string(), "b".to_string()]),
        min_p: Some(Double {
            bits: 0.25f64.to_bits(),
        }),
        ..no_options()
    };
    assert_eq!(
        options.serialize(),
        object(vec![
            ("mirostat", Json::Integer(-1)),
            (
                "temperature",
                Json::Double {
                    bits: 0.5f64.to_bits()
                }
            ),
            ("stop", Json::Array(vec![Json::Str("a"), Json::Str("b")])),
            (
                "min_p",
                Json::Double {
                    bits: 0.25f64.to_bits()
                }
            ),
        ])
    );
}

#[test]
fn doubles_are_compared_as_numbers() {
    let double = |value: f64| Double {
        bits: value.to_bits(),
    };
    for a in [
        0.0,
        -0.0,
        1.5,
        -1.5,
        5e-324,
        f64::INFINITY,
        f64::NEG_INFINITY,
        f64::NAN,
        -f64::NAN,
    ] {
        for b in [0.0, -0.0, 1.5, -1.5, 5e-324, f64::INFINITY, f64::NEG_INFINITY, f64::NAN] {
            assert_eq!(double(a) == double(b), a == b, "{a} {b}");
        }
    }
    let with = |value| OllamaOptions {
        top_p: Some(double(value)),
        ..no_options()
    };
    assert_eq!(with(0.0), with(-0.0));
    assert_ne!(with(f64::NAN), with(f64::NAN));
}

#[test]
fn options_are_copied_as_they_are() {
    let options = OllamaOptions {
        stop: Some(vec!["a".to_string(), "b".to_string()]),
        seed: Some(7),
        top_p: Some(Double {
            bits: 0.5f64.to_bits(),
        }),
        ..no_options()
    };
    assert_eq!(options.clone(), options);
    assert_eq!(no_options().clone(), no_options());
}

#[test]
fn a_full_request_is_written_with_everything() {
    let parameters = Value::Null;
    let request = OllamaRequest {
        model: "m",
        messages: vec![OllamaRequestMessage::User(OllamaUserRequestMessage {
            content: vec![text("Hello")],
        })],
        tools: Some(vec![OllamaTool {
            kind: OllamaToolType::Function,
            function: OllamaFunction {
                name: "f",
                description: None,
                parameters: &parameters,
            },
            strict: false,
        }]),
        format: Some(OllamaFormat::Json),
        options: Some(OllamaOptions {
            seed: Some(7),
            ..no_options()
        }),
        stream: true,
        keep_alive: Some("5m".to_string()),
    };
    match request.serialize() {
        Json::Object(members) => {
            let names: Vec<&str> = members.iter().map(|(name, _)| *name).collect();
            assert_eq!(
                names,
                vec![
                    "model",
                    "messages",
                    "tools",
                    "format",
                    "options",
                    "stream",
                    "keep_alive"
                ]
            );
            assert_eq!(members[0].1, Json::Str("m"));
            assert_eq!(
                members[1].1,
                Json::Array(vec![object(vec![
                    ("role", Json::Str("user")),
                    ("content", Json::Str("Hello")),
                ])])
            );
            assert_eq!(members[3].1, Json::Str("json"));
            assert_eq!(members[4].1, object(vec![("seed", Json::Integer(7))]));
            assert_eq!(members[5].1, Json::Bool(true));
            assert_eq!(members[6].1, Json::Str("5m"));
        }
        other => panic!("{other:?}"),
    }
}

#[test]
fn a_chat_request_carries_the_model_and_the_format() {
    let request = |json_mode| ModelInferenceRequest {
        messages: vec![],
        system: Some("s".to_string()),
        tool_config: None,
        json_mode,
    };
    let off = request(ModelInferenceRequestJsonMode::Off);
    assert_eq!(
        OllamaRequest::new("llama", &off).serialize(),
        object(vec![
            ("model", Json::Str("llama")),
            ("messages", Json::Array(vec![])),
            ("stream", Json::Bool(false)),
        ])
    );
    for mode in [
        ModelInferenceRequestJsonMode::On,
        ModelInferenceRequestJsonMode::Strict,
    ] {
        assert_eq!(
            OllamaFormat::ollama_format_from_json_mode(mode),
            Some(OllamaFormat::Json)
        );
        assert_eq!(
            OllamaRequest::new("llama", &request(mode)).serialize(),
            object(vec![
                ("model", Json::Str("llama")),
                ("messages", Json::Array(vec![])),
                ("format", Json::Str("json")),
                ("stream", Json::Bool(false)),
            ])
        );
    }
}

#[test]
fn a_chunk_is_written_under_the_names_of_ollama() {
    let chunk = OllamaChatChunk {
        model: "m".to_string(),
        created_at: "now".to_string(),
        message: OllamaChatChunkMessage {
            role: "assistant".to_string(),
            content: "Hi".to_string(),
        },
        done: true,
        completion_tokens: Some(3),
        prompt_tokens: None,
        total_duration: Some(u64::MAX),
        load_duration: None,
        prompt_eval_duration: Some(1),
        eval_duration: Some(2),
    };
    assert_eq!(
        chunk.serialize(),
        object(vec![
            ("model", Json::Str("m")),
            ("created_at", Json::Str("now")),
            (
                "message",
                object(vec![
                    ("role", Json::Str("assistant")),
                    ("content", Json::Str("Hi")),
                ])
            ),
            ("done", Json::Bool(true)),
            ("eval_count", Json::Integer(3)),
            ("prompt_eval_count", Json::Null),
            ("total_duration", Json::Integer(18446744073709551615)),
            ("load_duration", Json::Null),
            ("prompt_eval_duration", Json::Integer(1)),
            ("eval_duration", Json::Integer(2)),
        ])
    );
}

#[test]
fn credentials_are_never_written() {
    let provider = OllamaProvider::new(
        "llama".to_string(),
        Ok(OllamaCredentials::Static("secret".to_string())),
    )
    .unwrap();
    assert_eq!(
        provider.serialize(),
        object(vec![("model_name", Json::Str("llama"))])
    );
}
