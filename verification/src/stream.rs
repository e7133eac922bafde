//! Streamed answers: what each event of the stream is worth.

use std::time::Duration;
use vstd::prelude::*;

use crate::error::{outcome, Error, ErrorDetails, ErrorModel};
use crate::inference::{ChunkModel, ProviderInferenceResponseChunk};
use crate::json::Json;
use crate::response::{chunk_model, ollama_to_tensorzero_chunk, OllamaChatChunk};
use crate::text::join;
use crate::wire::chunk_json;

verus! {

/// A failure of the event stream, with its message. Where the server answered with a bad status,
/// `body` is the answer, if it could be read.
#[derive(Debug, PartialEq)]
pub enum EventSourceError {
    InvalidStatusCode { message: String, body: Option<String> },
    Other { message: String },
}

/// A failure in the middle of a stream: one of the gateway's own or one of the event stream.
#[derive(Debug, PartialEq)]
pub enum TensorZeroEventError {
    TensorZero(Error),
    EventSource(EventSourceError),
}

/// A chunk and its JSON text, if it could be written.
#[derive(Debug, PartialEq)]
pub struct ReceivedChunk {
    pub chunk: OllamaChatChunk,
    pub raw_chunk: Option<String>,
}

/// An event of the stream. A message holds its data, what reading the data as a chunk gave (the
/// chunk or the reader's complaint), and the time since the request.
#[derive(Debug, PartialEq)]
pub enum StreamEvent {
    Open,
    Message { data: String, chunk: Result<ReceivedChunk, String>, latency: Duration },
}

/// What becomes of an event.
#[derive(Debug, PartialEq)]
pub enum StreamStep {
    /// Nothing.
    Skip,
    /// The stream ends.
    Finish,
    /// The gateway gets an item.
    Item(Result<ProviderInferenceResponseChunk, Error>),
}

/// `StreamStep` over models.
pub enum StepModel {
    Skip,
    Finish,
    Item(Result<ChunkModel, ErrorModel>),
}

impl DeepView for StreamStep {
    type V = StepModel;

    open spec fn deep_view(&self) -> StepModel {
        match self {
            StreamStep::Skip => StepModel::Skip,
            StreamStep::Finish => StepModel::Finish,
            StreamStep::Item(item) => StepModel::Item(outcome(*item)),
        }
    }
}

/// What reading the data of a message gave.
pub open spec fn chunk_read(chunk: Result<ReceivedChunk, String>) -> Result<
    OllamaChatChunk,
    String,
> {
    match chunk {
        Ok(received) => Ok(received.chunk),
        Err(complaint) => Err(complaint),
    }
}

/// The event for a message with these data. `read` reads the data as a chunk, `elapsed` then tells
/// the time since the request, and `write` writes the tree of a chunk that was read as JSON
/// again.
pub fn receive_message<
    R: FnOnce(&str) -> Result<OllamaChatChunk, String>,
    E: FnOnce() -> Duration,
    W: FnOnce(Json<'_>) -> Option<String>,
>(data: String, read: R, elapsed: E, write: W) -> (event: StreamEvent)
    requires
        forall|text: &str| text@ == data@ ==> #[trigger] read.requires((text,)),
        elapsed.requires(()),
        forall|tree: Json<'_>|
            (exists|chunk: OllamaChatChunk| tree.deep_view() == #[trigger] chunk_json(chunk))
                ==> #[trigger] write.requires((tree,)),
    ensures
        event matches StreamEvent::Message { data: kept, chunk, latency } && {
            &&& kept == data
            &&& elapsed.ensures((), latency)
            &&& exists|text: &str| #[trigger]
                read.ensures((text,), chunk_read(chunk)) && text@ == data@
            &&& chunk matches Ok(received) ==> exists|tree: Json<'_>| #[trigger]
                write.ensures((tree,), received.raw_chunk) && tree.deep_view() == chunk_json(
                    received.chunk,
                )
        },
{
    let read_chunk: Result<OllamaChatChunk, String> = read(data.as_str());
    let latency: Duration = elapsed();
    let chunk: Result<ReceivedChunk, String> = match read_chunk {
        Ok(chunk) => {
            let raw_chunk: Option<String> = write(chunk.serialize());
            Ok(ReceivedChunk { chunk, raw_chunk })
        },
        Err(complaint) => Err(complaint),
    };
    StreamEvent::Message { data, chunk, latency }
}

/// The error for a failure of the event stream. It keeps the answer where one was received.
pub open spec fn stream_error_model(provider_type: Seq<char>, e: EventSourceError) -> ErrorModel {
    match e {
        EventSourceError::InvalidStatusCode { message, body } => ErrorModel::InferenceServer {
            message: message@,
            raw_request: None,
            raw_response: body.deep_view(),
            provider_type,
        },
        EventSourceError::Other { message } => ErrorModel::InferenceServer {
            message: message@,
            raw_request: None,
            raw_response: None,
            provider_type,
        },
    }
}

pub fn convert_stream_error(provider_type: String, e: EventSourceError) -> (error: Error)
    ensures
        error.deep_view() == stream_error_model(provider_type@, e),
{
    let (message, raw_response): (String, Option<String>) = match e {
        EventSourceError::InvalidStatusCode { message, body } => (message, body),
        EventSourceError::Other { message } => (message, None),
    };
    Error::new(
        ErrorDetails::InferenceServer { message, raw_request: None, raw_response, provider_type },
    )
}

/// What becomes of an event. A failure is passed on as an error and does not end the stream; only
/// the message `[DONE]` does. Every other message gives a chunk, or an error where it is none.
pub open spec fn step_model(
    provider_type: Seq<char>,
    event: Result<StreamEvent, TensorZeroEventError>,
) -> StepModel {
    match event {
        Err(TensorZeroEventError::TensorZero(error)) => StepModel::Item(Err(error.deep_view())),
        Err(TensorZeroEventError::EventSource(error)) => StepModel::Item(
            Err(stream_error_model(provider_type, error)),
        ),
        Ok(StreamEvent::Open) => StepModel::Skip,
        Ok(StreamEvent::Message { data, chunk, latency }) => if data@ == "[DONE]"@ {
            StepModel::Finish
        } else {
            match chunk {
                Ok(received) => StepModel::Item(
                    Ok(chunk_model(received.chunk, received.raw_chunk.deep_view(), latency)),
                ),
                Err(complaint) => StepModel::Item(
                    Err(
                        ErrorModel::InferenceServer {
                            message: "Error parsing Ollama chunk. Error: "@ + complaint@,
                            raw_request: None,
                            raw_response: Some(data@),
                            provider_type,
                        },
                    ),
                ),
            }
        },
    }
}

/// Decides what becomes of an event.
pub fn stream_step(
    provider_type: &str,
    event: Result<StreamEvent, TensorZeroEventError>,
    tool_call_ids: &mut [String],
) -> (step: StreamStep)
    ensures
        step.deep_view() == step_model(provider_type@, event),
        final(tool_call_ids)@ == old(tool_call_ids)@,
{
    match event {
        Err(TensorZeroEventError::TensorZero(error)) => StreamStep::Item(Err(error)),
        Err(TensorZeroEventError::EventSource(error)) => StreamStep::Item(
            Err(convert_stream_error(provider_type.to_owned(), error)),
        ),
        Ok(StreamEvent::Open) => StreamStep::Skip,
        Ok(StreamEvent::Message { data, chunk, latency }) => {
            if data == "[DONE]".to_owned() {
                return StreamStep::Finish;
            }
            match chunk {
                Ok(received) => StreamStep::Item(
                    Ok(
                        ollama_to_tensorzero_chunk(
                            received.chunk,
                            received.raw_chunk,
                            latency,
                            tool_call_ids,
                        ),
                    ),
                ),
                Err(complaint) => StreamStep::Item(
                    Err(
                        Error::new(
                            ErrorDetails::InferenceServer {
                                message: join(
                                    "Error parsing Ollama chunk. Error: ",
                                    complaint.as_str(),
                                ),
                                raw_request: None,
                                raw_response: Some(data),
                                provider_type: provider_type.to_owned(),
                            },
                        ),
                    ),
                ),
            }
        },
    }
}

/// The items that a stream of events gives: one for each event that gives one, in order, up to the
/// event that ends the stream.
pub open spec fn stream_items(
    provider_type: Seq<char>,
    events: Seq<Result<StreamEvent, TensorZeroEventError>>,
) -> Seq<Result<ChunkModel, ErrorModel>>
    decreases events.len(),
{
    if events.len() == 0 {
        Seq::empty()
    } else {
        match step_model(provider_type, events[0]) {
            StepModel::Finish => Seq::empty(),
            StepModel::Skip => stream_items(provider_type, events.drop_first()),
            StepModel::Item(item) => seq![item] + stream_items(
                provider_type,
                events.drop_first(),
            ),
        }
    }
}

pub open spec fn item_models(items: Seq<Result<ProviderInferenceResponseChunk, Error>>) -> Seq<
    Result<ChunkModel, ErrorModel>,
> {
    items.map_values(|item: Result<ProviderInferenceResponseChunk, Error>| outcome(item))
}

/// All items of a stream whose events are known.
pub fn stream_ollama(
    provider_type: String,
    events: Vec<Result<StreamEvent, TensorZeroEventError>>,
) -> (items: Vec<Result<ProviderInferenceResponseChunk, Error>>)
    ensures
        item_models(items@) == stream_items(provider_type@, events@),
{
    let mut tool_call_ids: Vec<String> = Vec::new();
    let mut items: Vec<Result<ProviderInferenceResponseChunk, Error>> = Vec::new();
    let ghost received = events@;
    assert(received.skip(0) == received);
    assert(item_models(items@) == Seq::<Result<ChunkModel, ErrorModel>>::empty());
    for event in iter: events
        invariant
            iter.seq() == received,
            stream_items(provider_type@, received) == item_models(items@) + stream_items(
                provider_type@,
                received.skip(iter.index()),
            ),
    {
        let ghost rest = received.skip(iter.index());
        let ghost before = item_models(items@);
        assert(rest[0] == event);
        assert(rest.drop_first() == received.skip(iter.index() + 1));
        match stream_step(provider_type.as_str(), event, tool_call_ids.as_mut_slice()) {
            StreamStep::Skip => {},
            StreamStep::Finish => {
                return items;
            },
            StreamStep::Item(item) => {
                items.push(item);
                assert(item_models(items@) == before.push(outcome(item)));
            },
        }
    }
    items
}

} // verus!
