use std::time::Duration;

use ollama_provider::credentials::{InferenceCredentials, OllamaCredentials};
use ollama_provider::error::{handle_ollama_error, Error, ErrorDetails, StatusCode};
use ollama_provider::inference::{
    ContentBlock, ContentBlockOutput, FinishReason, Latency, ModelInferenceRequest,
    ModelInferenceRequestJsonMode, ProviderInferenceResponse, RequestMessage, Role, Text, Usage,
};
use ollama_provider::json::Json;
use ollama_provider::provider::{
    finish_infer, interpret_reply, receive_reply, OllamaProvider, CHAT_URL,
};
use ollama_provider::response::{
    OllamaResponse, OllamaResponseMessage, OllamaResponseWithMetadata,
};
use secrecy::{ExposeSecret, SecretString};
use serde_json::Value;

fn status(code: u16) -> StatusCode {
    StatusCode { code }
}

fn request() -> ModelInferenceRequest {
    ModelInferenceRequest {
        messages: vec![RequestMessage {
            role: Role::User,
            content: vec![ContentBlock::Text(Text {
                text: "Hello".to_string(),
            })],
        }],
        system: Some("Be brief.".to_string()),
        tool_config: None,
        json_mode: ModelInferenceRequestJsonMode::Off,
    }
}

fn response(prompt: Option<u32>, completion: Option<u32>, done: bool) -> OllamaResponse {
    OllamaResponse {
        message: OllamaResponseMessage {
            role: "assistant".to_string(),
            content: "Hi".to_string(),
        },
        completion_tokens: completion,
        prompt_tokens: prompt,
        done,
    }
}

fn provider(credentials: OllamaCredentials<SecretString>) -> OllamaProvider<SecretString> {
    OllamaProvider::new("llama".to_string(), Ok(credentials)).unwrap()
}

fn server_error(message: &str, raw_request: Option<&str>, raw_response: Option<&str>) -> Error {
    Error::new(ErrorDetails::InferenceServer {
        message: message.to_string(),
        raw_request: raw_request.map(|text| text.to_string()),
        raw_response: raw_response.map(|text| text.to_string()),
        provider_type: "ollama".to_string(),
    })
}

#[test]
fn a_provider_keeps_its_model() {
    assert_eq!(provider(OllamaCredentials::NoKey).model_name(), "llama");
}

#[test]
fn there_is_no_provider_without_credentials() {
    let error = || {
        Error::new(ErrorDetails::Config {
            message: "no".to_string(),
        })
    };
    let refused = OllamaProvider::<SecretString>::new("llama".to_string(), Err(error()));
    assert_eq!(refused.unwrap_err(), error());
}

#[test]
fn the_call_carries_the_url_the_key_and_the_body() {
    let provider = provider(OllamaCredentials::Static(SecretString::from("k")));
    let keys = InferenceCredentials::new();
    let request = request();
    let call = provider
        .prepare_infer(&request, &keys, |tree| {
            assert_eq!(
                tree,
                Json::Object(vec![
                    ("model", Json::Str("llama")),
                    ("messages", Json::Array(vec![])),
                    ("stream", Json::Bool(false)),
                ])
            );
            Ok(Value::Bool(true))
        })
        .unwrap();
    assert_eq!(call.url, "http://localhost:11434/api/chat");
    assert_eq!(call.url, CHAT_URL);
    assert_eq!(call.api_key.unwrap().expose_secret(), "k");
    assert_eq!(call.body, Value::Bool(true));
}

#[test]
fn a_streamed_answer_is_asked_for_by_the_same_call() {
    let provider = provider(OllamaCredentials::NoKey);
    let keys = InferenceCredentials::new();
    let request = request();
    let whole = provider
        .prepare_infer(&request, &keys, |_| Ok(Value::Null))
        .unwrap();
    let streamed = provider
        .prepare_infer_stream(&request, &keys, |_| Ok(Value::Null))
        .unwrap();
    assert_eq!(whole.url, streamed.url);
    assert_eq!(whole.body, streamed.body);
    assert!(whole.api_key.is_none() && streamed.api_key.is_none());
}

#[test]
fn the_order_of_the_two_failures_differs() {
    let provider = provider(OllamaCredentials::Dynamic("n".to_string()));
    let keys = InferenceCredentials::new();
    let request = request();
    let missing = || {
        Error::new(ErrorDetails::ApiKeyMissing {
            provider_name: "Ollama".to_string(),
            message: "Dynamic api key `n` is missing".to_string(),
        })
    };
    let unwritten = Error::new(ErrorDetails::Serialization {
        message: "Error serializing Ollama request: oops".to_string(),
    });
    let oops = || Err("oops".to_string());
    assert_eq!(
        provider.prepare_infer(&request, &keys, |_| oops()).unwrap_err(),
        missing()
    );
    assert_eq!(
        provider
            .prepare_infer_stream(&request, &keys, |_| oops())
            .unwrap_err(),
        unwritten
    );
    assert_eq!(
        provider
            .prepare_infer_stream(&request, &keys, |_| Ok(Value::Null))
            .unwrap_err(),
        missing()
    );
    let mut keys = InferenceCredentials::new();
    keys.insert("n".to_string(), SecretString::from("k"));
    assert_eq!(
        provider.compose_infer_call(oops(), &keys).unwrap_err(),
        unwritten
    );
    assert_eq!(
        provider
            .compose_infer_stream_call(Ok(Value::Null), &keys)
            .unwrap()
            .api_key
            .unwrap()
            .expose_secret(),
        "k"
    );
}

#[test]
fn four_statuses_blame_the_client() {
    for code in [400, 401, 403, 429] {
        assert_eq!(
            handle_ollama_error(status(code), "body", "ollama"),
            Error::new(ErrorDetails::InferenceClient {
                status_code: Some(status(code)),
                message: "body".to_string(),
                raw_request: None,
                raw_response: Some("body".to_string()),
                provider_type: "ollama".to_string(),
            })
        );
    }
}

#[test]
fn all_other_statuses_blame_the_server() {
    for code in [300, 402, 404, 418, 428, 430, 500, 503] {
        assert_eq!(
            handle_ollama_error(status(code), "body", "ollama"),
            server_error("body", None, None)
        );
    }
}

#[test]
fn success_is_from_two_hundred_to_three_hundred() {
    assert!(!status(199).is_success());
    assert!(status(200).is_success());
    assert!(status(299).is_success());
    assert!(!status(300).is_success());
}

#[test]
fn a_reply_is_received_or_refused() {
    let text = || Ok("text".to_string());
    let lost = || Err("lost".to_string());
    assert_eq!(receive_reply(status(200), text(), "rq").unwrap(), "text");
    assert_eq!(
        receive_reply(status(200), lost(), "rq").unwrap_err(),
        server_error("Error parsing response: lost", Some("rq"), None)
    );
    assert_eq!(
        receive_reply(status(500), text(), "rq").unwrap_err(),
        server_error("text", None, None)
    );
    assert_eq!(
        receive_reply(status(500), lost(), "rq").unwrap_err(),
        server_error("Error parsing error response: lost", Some("rq"), None)
    );
}

#[test]
fn an_answer_that_cannot_be_read_is_kept() {
    let request = request();
    assert_eq!(
        interpret_reply(
            Err("bad".to_string()),
            "raw".to_string(),
            Duration::from_millis(5),
            "rq".to_string(),
            &request,
        )
        .unwrap_err(),
        server_error("Error parsing response: bad", Some("rq"), Some("raw"))
    );
}

#[test]
fn a_reply_becomes_an_answer() {
    let request = request();
    let answer = finish_infer(
        status(200),
        Ok("raw".to_string()),
        Duration::from_millis(5),
        "rq".to_string(),
        &request,
        |text| {
            assert_eq!(text, "raw");
            Ok(response(Some(10), Some(20), true))
        },
    )
    .unwrap();
    assert_eq!(
        answer,
        ProviderInferenceResponse {
            output: vec![ContentBlockOutput::Text(Text {
                text: "Hi".to_string()
            })],
            system: Some("Be brief.".to_string()),
            input_messages: request.messages.clone(),
            raw_request: "rq".to_string(),
            raw_response: "raw".to_string(),
            usage: Usage {
                input_tokens: 10,
                output_tokens: 20,
            },
            latency: Latency::NonStreaming {
                response_time: Duration::from_millis(5)
            },
            finish_reason: Some(FinishReason::Stop),
        }
    );
}

#[test]
fn a_failing_reply_is_not_read() {
    let request = request();
    let answer = finish_infer(
        status(404),
        Ok("model not found".to_string()),
        Duration::from_millis(5),
        "rq".to_string(),
        &request,
        |_| panic!("must not be read"),
    );
    assert_eq!(
        answer.unwrap_err(),
        server_error("model not found", None, None)
    );
}

#[test]
fn counts_default_to_zero_and_an_unfinished_answer_is_unknown() {
    let request = request();
    let with_metadata = OllamaResponseWithMetadata {
        response: response(None, None, false),
        raw_response: "raw".to_string(),
        latency: Latency::Batch,
        raw_request: "rq".to_string(),
        generic_request: &request,
    };
    let answer = ProviderInferenceResponse::try_from(with_metadata).unwrap();
    assert_eq!(
        answer.usage,
        Usage {
            input_tokens: 0,
            output_tokens: 0,
        }
    );
    assert_eq!(answer.finish_reason, Some(FinishReason::Unknown));
    assert_eq!(answer.latency, Latency::Batch);
}

#[test]
fn batches_are_refused() {
    let provider = provider(OllamaCredentials::NoKey);
    let expected = Error::new(ErrorDetails::UnsupportedModelProviderForBatchInference {
        provider_type: "ollama".to_string(),
    });
    let started: Result<(), Error> = provider.start_batch_inference(&[request()]);
    assert_eq!(started.unwrap_err(), expected);
    let polled: Result<(), Error> = provider.poll_batch_inference(&"batch");
    assert_eq!(polled.unwrap_err(), expected);
}

#[test]
fn an_error_shows_its_details() {
    let error = Error::from(ErrorDetails::Config {
        message: "m".to_string(),
    });
    assert_eq!(
        error.get_details(),
        &ErrorDetails::Config {
            message: "m".to_string()
        }
    );
}
