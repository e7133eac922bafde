use std::time::Duration;

use ollama_provider::error::{Error, ErrorDetails};
use ollama_provider::inference::{
    ContentBlockChunk, FinishReason, ProviderInferenceResponseChunk, TextChunk, Usage,
};
use ollama_provider::response::{
    ollama_to_tensorzero_chunk, OllamaChatChunk, OllamaChatChunkMessage,
};
use ollama_provider::stream::{
    convert_stream_error, receive_message, stream_ollama, stream_step, EventSourceError,
    ReceivedChunk, StreamEvent, StreamStep, TensorZeroEventError,
};

fn chunk(content: &str, done: bool, prompt: Option<u32>, completion: Option<u32>) -> OllamaChatChunk {
    OllamaChatChunk {
        model: "m".to_string(),
        created_at: "now".to_string(),
        message: OllamaChatChunkMessage {
            role: "assistant".to_string(),
            content: content.to_string(),
        },
        done,
        completion_tokens: completion,
        prompt_tokens: prompt,
        total_duration: None,
        load_duration: None,
        prompt_eval_duration: None,
        eval_duration: None,
    }
}

fn message(content: &str) -> Result<StreamEvent, TensorZeroEventError> {
    Ok(StreamEvent::Message {
        data: "data".to_string(),
        chunk: Ok(ReceivedChunk {
            chunk: chunk(content, false, None, None),
            raw_chunk: Some("raw".to_string()),
        }),
        latency: Duration::from_millis(1),
    })
}

fn done() -> Result<StreamEvent, TensorZeroEventError> {
    Ok(StreamEvent::Message {
        data: "[DONE]".to_string(),
        chunk: Err("not a chunk".to_string()),
        latency: Duration::from_millis(1),
    })
}

fn item(content: &str) -> ProviderInferenceResponseChunk {
    ProviderInferenceResponseChunk {
        content: vec![ContentBlockChunk::Text(TextChunk {
            text: content.to_string(),
            id: "0".to_string(),
        })],
        usage: None,
        raw_response: "raw".to_string(),
        latency: Duration::from_millis(1),
        finish_reason: None,
    }
}

fn server_error(message: &str, raw_response: Option<&str>) -> Error {
    Error::new(ErrorDetails::InferenceServer {
        message: message.to_string(),
        raw_request: None,
        raw_response: raw_response.map(|text| text.to_string()),
        provider_type: "ollama".to_string(),
    })
}

#[test]
fn a_chunk_in_the_middle_has_text_only() {
    let mut ids = vec!["kept".to_string()];
    assert_eq!(
        ollama_to_tensorzero_chunk(
            chunk("Hi", false, Some(1), Some(2)),
            Some("raw".to_string()),
            Duration::from_millis(1),
            &mut ids,
        ),
        item("Hi")
    );
    assert_eq!(ids, vec!["kept".to_string()]);
}

#[test]
fn the_last_chunk_reports_the_end_and_the_counts() {
    let last = |prompt, completion| {
        ollama_to_tensorzero_chunk(
            chunk("", true, prompt, completion),
            None,
            Duration::from_millis(1),
            &mut [],
        )
    };
    let counted = last(Some(10), Some(20));
    assert_eq!(counted.content, vec![]);
    assert_eq!(counted.raw_response, "");
    assert_eq!(counted.finish_reason, Some(FinishReason::Stop));
    assert_eq!(
        counted.usage,
        Some(Usage {
            input_tokens: 10,
            output_tokens: 20,
        })
    );
    assert_eq!(
        last(None, Some(20)).usage,
        Some(Usage {
            input_tokens: 0,
            output_tokens: 20,
        })
    );
    assert_eq!(
        last(Some(10), None).usage,
        Some(Usage {
            input_tokens: 10,
            output_tokens: 0,
        })
    );
    let uncounted = last(None, None);
    assert_eq!(uncounted.usage, None);
    assert_eq!(uncounted.finish_reason, Some(FinishReason::Stop));
}

#[test]
fn chunks_that_differ_are_written_differently() {
    let base = || chunk("Hi", false, None, None);
    let mut others = vec![
        chunk("Ho", false, None, None),
        chunk("Hi", true, None, None),
        chunk("Hi", false, Some(0), None),
        chunk("Hi", false, None, Some(0)),
    ];
    let mut other = base();
    other.eval_duration = Some(1);
    others.push(other);
    let mut other = base();
    other.message.role = "user".to_string();
    others.push(other);
    assert_eq!(base().serialize(), base().serialize());
    for other in &others {
        assert_ne!(base().serialize(), other.serialize());
    }
}

#[test]
fn a_bad_status_keeps_the_answer() {
    assert_eq!(
        convert_stream_error(
            "ollama".to_string(),
            EventSourceError::InvalidStatusCode {
                message: "Invalid status code: 500".to_string(),
                body: Some("body".to_string()),
            }
        ),
        server_error("Invalid status code: 500", Some("body"))
    );
    assert_eq!(
        convert_stream_error(
            "ollama".to_string(),
            EventSourceError::InvalidStatusCode {
                message: "Invalid status code: 500".to_string(),
                body: None,
            }
        ),
        server_error("Invalid status code: 500", None)
    );
    assert_eq!(
        convert_stream_error(
            "ollama".to_string(),
            EventSourceError::Other {
                message: "Stream ended".to_string(),
            }
        ),
        server_error("Stream ended", None)
    );
}

#[test]
fn each_event_has_its_step() {
    let step = |event| stream_step("ollama", event, &mut []);
    assert_eq!(step(Ok(StreamEvent::Open)), StreamStep::Skip);
    assert_eq!(step(done()), StreamStep::Finish);
    assert_eq!(step(message("Hi")), StreamStep::Item(Ok(item("Hi"))));
    assert_eq!(
        step(Ok(StreamEvent::Message {
            data: "{".to_string(),
            chunk: Err("EOF".to_string()),
            latency: Duration::from_millis(1),
        })),
        StreamStep::Item(Err(server_error(
            "Error parsing Ollama chunk. Error: EOF",
            Some("{")
        )))
    );
    let own = || {
        Error::new(ErrorDetails::Config {
            message: "own".to_string(),
        })
    };
    assert_eq!(
        step(Err(TensorZeroEventError::TensorZero(own()))),
        StreamStep::Item(Err(own()))
    );
    assert_eq!(
        step(Err(TensorZeroEventError::EventSource(
            EventSourceError::Other {
                message: "Stream ended".to_string()
            }
        ))),
        StreamStep::Item(Err(server_error("Stream ended", None)))
    );
}

#[test]
fn nothing_comes_after_done() {
    let items = stream_ollama(
        "ollama".to_string(),
        vec![
            Ok(StreamEvent::Open),
            message("a"),
            message("b"),
            done(),
            message("c"),
        ],
    );
    assert_eq!(items, vec![Ok(item("a")), Ok(item("b"))]);
}

#[test]
fn a_failure_does_not_end_the_stream() {
    let items = stream_ollama(
        "ollama".to_string(),
        vec![
            message("a"),
            Err(TensorZeroEventError::EventSource(EventSourceError::Other {
                message: "lost".to_string(),
            })),
            message("b"),
        ],
    );
    assert_eq!(
        items,
        vec![
            Ok(item("a")),
            Err(server_error("lost", None)),
            Ok(item("b")),
        ]
    );
}

#[test]
fn a_stream_may_end_without_done() {
    assert_eq!(stream_ollama("ollama".to_string(), vec![]), vec![]);
    assert_eq!(
        stream_ollama("ollama".to_string(), vec![message("a")]),
        vec![Ok(item("a"))]
    );
}

#[test]
fn a_message_is_read_timed_and_written_again() {
    let event = receive_message(
        "text".to_string(),
        |text| {
            assert_eq!(text, "text");
            Ok(chunk("Hi", false, None, None))
        },
        || Duration::from_millis(3),
        |tree| {
            assert_eq!(tree, chunk("Hi", false, None, None).serialize());
            Some("Hi".to_string())
        },
    );
    assert_eq!(
        event,
        StreamEvent::Message {
            data: "text".to_string(),
            chunk: Ok(ReceivedChunk {
                chunk: chunk("Hi", false, None, None),
                raw_chunk: Some("Hi".to_string()),
            }),
            latency: Duration::from_millis(3),
        }
    );
    let unread = receive_message(
        "text".to_string(),
        |_| Err("EOF".to_string()),
        || Duration::from_millis(3),
        |_| panic!("there is no chunk to write"),
    );
    assert_eq!(
        unread,
        StreamEvent::Message {
            data: "text".to_string(),
            chunk: Err("EOF".to_string()),
            latency: Duration::from_millis(3),
        }
    );
}
