//! Ollama's answers: whole ones and the chunks of streamed ones.

use std::time::Duration;
use vstd::prelude::*;

use crate::error::{outcome, Error, ErrorModel};
use crate::inference::{
    clone_messages, ChunkModel, ContentBlockChunk, ContentBlockChunkModel, ContentBlockOutput,
    ContentBlockOutputModel, FinishReason, Latency, ModelInferenceRequest,
    ProviderInferenceResponse, ProviderInferenceResponseChunk, ResponseModel, Text, TextChunk,
    Usage,
};

verus! {

#[derive(Debug, PartialEq)]
pub struct OllamaResponseMessage {
    pub role: String,
    pub content: String,
}

/// A whole answer.
#[derive(Debug, PartialEq)]
pub struct OllamaResponse {
    pub message: OllamaResponseMessage,
    pub completion_tokens: Option<u32>,
    pub prompt_tokens: Option<u32>,
    pub done: bool,
}

/// A whole answer with what the gateway knows about it.
#[derive(Debug, PartialEq)]
pub struct OllamaResponseWithMetadata<'a> {
    pub response: OllamaResponse,
    pub raw_response: String,
    pub latency: Latency,
    pub raw_request: String,
    pub generic_request: &'a ModelInferenceRequest,
}

/// The number, or zero where there is none.
pub open spec fn or_zero(count: Option<u32>) -> u32 {
    match count {
        Some(count) => count,
        None => 0,
    }
}

/// What the gateway makes of a whole answer: its text as the one block of output, the token counts
/// with zero for what is not reported, and the request and the raw texts as they were. Ollama gives
/// no reason for stopping, so a complete answer counts as stopped and any other as unknown.
pub open spec fn response_model(
    response: OllamaResponse,
    raw_response: Seq<char>,
    latency: Latency,
    raw_request: Seq<char>,
    request: ModelInferenceRequest,
) -> ResponseModel {
    ResponseModel {
        output: seq![ContentBlockOutputModel::Text { text: response.message.content@ }],
        system: request.system.deep_view(),
        input_messages: request.messages.deep_view(),
        raw_request,
        raw_response,
        usage: Usage {
            input_tokens: or_zero(response.prompt_tokens),
            output_tokens: or_zero(response.completion_tokens),
        },
        latency,
        finish_reason: Some(
            if response.done {
                FinishReason::Stop
            } else {
                FinishReason::Unknown
            },
        ),
    }
}

impl<'a> TryFrom<OllamaResponseWithMetadata<'a>> for ProviderInferenceResponse {
    type Error = Error;

    fn try_from(value: OllamaResponseWithMetadata<'a>) -> (converted: Result<Self, Error>)
        ensures
            outcome(converted) == Ok::<ResponseModel, ErrorModel>(
                response_model(
                    value.response,
                    value.raw_response@,
                    value.latency,
                    value.raw_request@,
                    *value.generic_request,
                ),
            ),
    {
        let OllamaResponseWithMetadata {
            response,
            raw_response,
            latency,
            raw_request,
            generic_request,
        } = value;
        let ghost text = response.message.content@;
        let mut output: Vec<ContentBlockOutput> = Vec::new();
        output.push(ContentBlockOutput::Text(Text { text: response.message.content }));
        assert(output.deep_view() == seq![ContentBlockOutputModel::Text { text }]);
        let usage = Usage {
            input_tokens: response.prompt_tokens.unwrap_or(0),
            output_tokens: response.completion_tokens.unwrap_or(0),
        };
        let finish_reason = if response.done {
            FinishReason::Stop
        } else {
            FinishReason::Unknown
        };
        let input_messages = clone_messages(generic_request.messages.as_slice());
        assert(input_messages.deep_view() == generic_request.messages.deep_view());
        Ok(
            ProviderInferenceResponse {
                output,
                system: generic_request.system.clone(),
                input_messages,
                raw_request,
                raw_response,
                usage,
                latency,
                finish_reason: Some(finish_reason),
            },
        )
    }
}

// `try_from` states what it returns itself, over models.
impl<'a> vstd::std_specs::convert::TryFromSpecImpl<OllamaResponseWithMetadata<'a>>
    for ProviderInferenceResponse {
    open spec fn obeys_try_from_spec() -> bool {
        false
    }

    open spec fn try_from_spec(value: OllamaResponseWithMetadata<'a>) -> Result<Self, Error> {
        arbitrary()
    }
}

#[derive(Debug, PartialEq)]
pub struct OllamaChatChunkMessage {
    pub role: String,
    pub content: String,
}

/// A chunk of a streamed answer.
#[derive(Debug, PartialEq)]
pub struct OllamaChatChunk {
    pub model: String,
    pub created_at: String,
    pub message: OllamaChatChunkMessage,
    pub done: bool,
    pub completion_tokens: Option<u32>,
    pub prompt_tokens: Option<u32>,
    pub total_duration: Option<u64>,
    pub load_duration: Option<u64>,
    pub prompt_eval_duration: Option<u64>,
    pub eval_duration: Option<u64>,
}

/// What the gateway makes of a chunk: its text as a block, unless it is empty; that the model has
/// stopped, on the last chunk; and the token counts, on the last chunk if it reports any. A raw
/// text that could not be written counts as empty.
pub open spec fn chunk_model(
    chunk: OllamaChatChunk,
    raw_chunk: Option<Seq<char>>,
    latency: Duration,
) -> ChunkModel {
    ChunkModel {
        content: if chunk.message.content@.len() == 0 {
            Seq::empty()
        } else {
            seq![ContentBlockChunkModel::Text { text: chunk.message.content@, id: "0"@ }]
        },
        usage: if chunk.done && (chunk.completion_tokens is Some || chunk.prompt_tokens is Some) {
            Some(
                Usage {
                    input_tokens: or_zero(chunk.prompt_tokens),
                    output_tokens: or_zero(chunk.completion_tokens),
                },
            )
        } else {
            None
        },
        raw_response: match raw_chunk {
            Some(raw_chunk) => raw_chunk,
            None => Seq::empty(),
        },
        latency,
        finish_reason: if chunk.done {
            Some(FinishReason::Stop)
        } else {
            None
        },
    }
}

/// Turns a chunk of Ollama into one of the gateway. `raw_chunk` is the chunk written as JSON, if
/// that succeeded. Ollama makes no tool calls while streaming, so the ids of earlier ones are left
/// alone.
pub fn ollama_to_tensorzero_chunk(
    chunk: OllamaChatChunk,
    raw_chunk: Option<String>,
    latency: Duration,
    _tool_call_ids: &mut [String],
) -> (converted: ProviderInferenceResponseChunk)
    ensures
        converted.deep_view() == chunk_model(chunk, raw_chunk.deep_view(), latency),
        final(_tool_call_ids)@ == old(_tool_call_ids)@,
{
    let raw_response: String = match raw_chunk {
        Some(raw_chunk) => raw_chunk,
        None => String::new(),
    };
    let ghost text = chunk.message.content@;
    let mut content: Vec<ContentBlockChunk> = Vec::new();
    if !chunk.message.content.as_str().is_empty() {
        content.push(
            ContentBlockChunk::Text(
                TextChunk { text: chunk.message.content, id: "0".to_owned() },
            ),
        );
        assert(content.deep_view() == seq![ContentBlockChunkModel::Text { text, id: "0"@ }]);
    } else {
        assert(content.deep_view() == Seq::<ContentBlockChunkModel>::empty());
    }
    let mut finish_reason: Option<FinishReason> = None;
    if chunk.done {
        finish_reason = Some(FinishReason::Stop);
    }
    let usage: Option<Usage> = if chunk.done && (chunk.completion_tokens.is_some()
        || chunk.prompt_tokens.is_some()) {
        Some(
            Usage {
                input_tokens: chunk.prompt_tokens.unwrap_or(0),
                output_tokens: chunk.completion_tokens.unwrap_or(0),
            },
        )
    } else {
        None
    };
    ProviderInferenceResponseChunk { content, usage, raw_response, latency, finish_reason }
}

} // verus!
