//! What holds of every answer of Ollama, whole or streamed, that reaches the gateway.

use std::time::Duration;
use vstd::prelude::*;

use crate::error::{handle_ollama_error, outcome, Error, ErrorModel, StatusCode};
use crate::inference::{
    ContentBlockChunk, ContentBlockOutput, FinishReason, Latency, ModelInferenceRequest,
    ProviderInferenceResponse, ProviderInferenceResponseChunk,
};
use crate::json::Json;
use crate::provider::{finish_infer, interpret_reply, interpreted_reply, receive_reply};
use crate::response::{
    chunk_model, ollama_to_tensorzero_chunk, response_model, OllamaChatChunk, OllamaResponse,
    OllamaResponseWithMetadata,
};
use crate::stream::{
    convert_stream_error, item_models, receive_message, step_model, stream_items, stream_ollama,
    stream_step, EventSourceError, StepModel, StreamEvent, StreamStep, TensorZeroEventError,
};
use crate::wire::chunk_json;

verus! {

/// The count is the reported one, or zero if none is reported.
pub open spec fn counts(tokens: u32, reported: Option<u32>) -> bool {
    match reported {
        Some(reported) => tokens == reported,
        None => tokens == 0,
    }
}

/// The output is one text block with that text.
pub open spec fn is_one_text(output: Seq<ContentBlockOutput>, text: Seq<char>) -> bool {
    output.len() == 1 && (output[0] matches ContentBlockOutput::Text(block) && block.text@ == text)
}

/// The answer passes the request's instructions and messages back as they were.
pub open spec fn passes_back(
    answer: ProviderInferenceResponse,
    request: ModelInferenceRequest,
) -> bool {
    &&& match (answer.system, request.system) {
        (Some(system), Some(asked)) => system@ == asked@,
        (None, None) => true,
        _ => false,
    }
    &&& answer.input_messages@.len() == request.messages@.len()
    &&& forall|i: int|
        0 <= i < request.messages@.len() ==> {
            &&& (#[trigger] answer.input_messages@[i]).role == request.messages@[i].role
            &&& answer.input_messages@[i].content@ == request.messages@[i].content@
        }
}

/// The answer is what the gateway is to make of the response: its text, its token counts, that the
/// model has stopped if and only if the response is complete, and, as they were, the request and
/// the raw texts.
pub open spec fn answers(
    answer: ProviderInferenceResponse,
    response: OllamaResponse,
    raw_response: Seq<char>,
    latency: Latency,
    raw_request: Seq<char>,
    request: ModelInferenceRequest,
) -> bool {
    &&& is_one_text(answer.output@, response.message.content@)
    &&& counts(answer.usage.input_tokens, response.prompt_tokens)
    &&& counts(answer.usage.output_tokens, response.completion_tokens)
    &&& response.done ==> answer.finish_reason == Some(FinishReason::Stop)
    &&& !response.done ==> answer.finish_reason == Some(FinishReason::Unknown)
    &&& passes_back(answer, request)
    &&& answer.raw_request@ == raw_request
    &&& answer.raw_response@ == raw_response
    &&& answer.latency == latency
}

/// Every whole answer can be converted, to what the gateway is to make of it.
pub proof fn law_whole_answer<'a>(
    value: OllamaResponseWithMetadata<'a>,
    converted: Result<ProviderInferenceResponse, Error>,
)
    requires
        call_ensures(
            <ProviderInferenceResponse as TryFrom<OllamaResponseWithMetadata<'a>>>::try_from,
            (value,),
            converted,
        ),
    ensures
        converted matches Ok(answer) && answers(
            answer,
            value.response,
            value.raw_response@,
            value.latency,
            value.raw_request@,
            *value.generic_request,
        ),
{
    lemma_answer(
        converted->Ok_0,
        value.response,
        value.raw_response@,
        value.latency,
        value.raw_request@,
        *value.generic_request,
    );
}

proof fn lemma_answer(
    answer: ProviderInferenceResponse,
    response: OllamaResponse,
    raw_response: Seq<char>,
    latency: Latency,
    raw_request: Seq<char>,
    request: ModelInferenceRequest,
)
    requires
        answer.deep_view() == response_model(response, raw_response, latency, raw_request, request),
    ensures
        answers(answer, response, raw_response, latency, raw_request, request),
{
    let output = answer.output.deep_view();
    assert(output.len() == answer.output@.len());
    assert(output[0] == answer.output@[0].deep_view());
    let messages = answer.input_messages.deep_view();
    assert(messages.len() == answer.input_messages@.len());
    assert(request.messages.deep_view().len() == request.messages@.len());
    assert forall|i: int| 0 <= i < request.messages@.len() implies {
        &&& (#[trigger] answer.input_messages@[i]).role == request.messages@[i].role
        &&& answer.input_messages@[i].content@ == request.messages@[i].content@
    } by {
        assert(messages[i] == answer.input_messages@[i].deep_view());
        assert(request.messages.deep_view()[i] == request.messages@[i].deep_view());
    }
}

/// The output depends on the text of the response alone: answers that differ in the request, in the
/// raw texts, in the token counts or in the time taken have the same output.
pub proof fn law_output_is_the_text_alone<'a>(
    value: OllamaResponseWithMetadata<'a>,
    answer: ProviderInferenceResponse,
    other: OllamaResponseWithMetadata<'a>,
    other_answer: ProviderInferenceResponse,
)
    requires
        call_ensures(
            <ProviderInferenceResponse as TryFrom<OllamaResponseWithMetadata<'a>>>::try_from,
            (value,),
            Ok(answer),
        ),
        call_ensures(
            <ProviderInferenceResponse as TryFrom<OllamaResponseWithMetadata<'a>>>::try_from,
            (other,),
            Ok(other_answer),
        ),
        value.response.message.content@ == other.response.message.content@,
    ensures
        answer.output.deep_view() == other_answer.output.deep_view(),
{
    law_whole_answer(value, Ok(answer));
    law_whole_answer(other, Ok(other_answer));
    assert(answer.output.deep_view() =~= other_answer.output.deep_view());
}

/// The error is the server's, with these texts.
pub open spec fn blames_server(
    error: Error,
    message: Seq<char>,
    raw_request: Option<Seq<char>>,
    raw_response: Option<Seq<char>>,
    provider_type: Seq<char>,
) -> bool {
    error.deep_view() == (ErrorModel::InferenceServer {
        message,
        raw_request,
        raw_response,
        provider_type,
    })
}

/// The error is the one for a reply with that failing status: the client's, with the status and the
/// reply, for the codes 400, 401, 403 and 429, and otherwise the server's, with the reply as its
/// message.
pub open spec fn reports(
    error: Error,
    code: u16,
    reply: Seq<char>,
    provider_type: Seq<char>,
) -> bool {
    if code == 400 || code == 401 || code == 403 || code == 429 {
        error.deep_view() == (ErrorModel::InferenceClient {
            status_code: Some(StatusCode { code }),
            message: reply,
            raw_request: None,
            raw_response: Some(reply),
            provider_type,
        })
    } else {
        blames_server(error, reply, None, None, provider_type)
    }
}

/// A failing reply is reported by its status and its text.
pub proof fn law_failing_reply(
    response_code: StatusCode,
    response_body: &str,
    provider_type: &str,
    error: Error,
)
    requires
        call_ensures(handle_ollama_error, (response_code, response_body, provider_type), error),
    ensures
        reports(error, response_code.code, response_body@, provider_type@),
{
}

/// The text of a reply is received if and only if the status is from 200 to 299 and there is a
/// text, and then unchanged. A failing reply is reported by its status and its text, and a text
/// that is not there as an error of the server that keeps the request.
pub proof fn law_received_reply(
    status: StatusCode,
    text: Result<String, String>,
    raw_request: &str,
    received: Result<String, Error>,
)
    requires
        call_ensures(receive_reply, (status, text, raw_request), received),
    ensures
        match (200 <= status.code <= 299, text) {
            (true, Ok(text)) => received matches Ok(received) && received@ == text@,
            (true, Err(complaint)) => received matches Err(error) && blames_server(
                error,
                "Error parsing response: "@ + complaint@,
                Some(raw_request@),
                None,
                "ollama"@,
            ),
            (false, Ok(text)) => received matches Err(error) && reports(
                error,
                status.code,
                text@,
                "ollama"@,
            ),
            (false, Err(complaint)) => received matches Err(error) && blames_server(
                error,
                "Error parsing error response: "@ + complaint@,
                Some(raw_request@),
                None,
                "ollama"@,
            ),
        },
{
}

/// The answer is the one for what reading a received reply gave: the response, converted, or the
/// complaint, as an error of the server that keeps the request and the reply.
pub open spec fn interprets(
    answer: Result<ProviderInferenceResponse, Error>,
    response: Result<OllamaResponse, String>,
    raw_response: Seq<char>,
    response_time: Duration,
    raw_request: Seq<char>,
    request: ModelInferenceRequest,
) -> bool {
    match response {
        Ok(response) => answer matches Ok(answer) && answers(
            answer,
            response,
            raw_response,
            Latency::NonStreaming { response_time },
            raw_request,
            request,
        ),
        Err(complaint) => answer matches Err(error) && blames_server(
            error,
            "Error parsing response: "@ + complaint@,
            Some(raw_request),
            Some(raw_response),
            "ollama"@,
        ),
    }
}

/// A reply that was read is converted, and one that could not be read is reported with its text.
pub proof fn law_interpreted_reply(
    response: Result<OllamaResponse, String>,
    raw_response: String,
    response_time: Duration,
    raw_request: String,
    request: &ModelInferenceRequest,
    answer: Result<ProviderInferenceResponse, Error>,
)
    requires
        call_ensures(
            interpret_reply,
            (response, raw_response, response_time, raw_request, request),
            answer,
        ),
    ensures
        interprets(answer, response, raw_response@, response_time, raw_request@, *request),
{
    if let Ok(response) = response {
        lemma_answer(
            answer->Ok_0,
            response,
            raw_response@,
            Latency::NonStreaming { response_time },
            raw_request@,
            *request,
        );
    }
}

/// From reply to answer: a text with a status from 200 to 299 is read, and what reading it gives is
/// the answer, with the text as the raw response. Every other reply is an error.
pub proof fn law_reply_to_answer<R: FnOnce(&str) -> Result<OllamaResponse, String>>(
    status: StatusCode,
    text: Result<String, String>,
    response_time: Duration,
    raw_request: String,
    request: &ModelInferenceRequest,
    read: R,
    answer: Result<ProviderInferenceResponse, Error>,
)
    requires
        call_ensures(
            finish_infer::<R>,
            (status, text, response_time, raw_request, request, read),
            answer,
        ),
    ensures
        match (200 <= status.code <= 299, text) {
            (true, Ok(text)) => exists|raw_response: &str, response: Result<OllamaResponse, String>|
                {
                    &&& raw_response@ == text@
                    &&& #[trigger] read.ensures((raw_response,), response)
                    &&& interprets(
                        answer,
                        response,
                        text@,
                        response_time,
                        raw_request@,
                        *request,
                    )
                },
            (true, Err(complaint)) => answer matches Err(error) && blames_server(
                error,
                "Error parsing response: "@ + complaint@,
                Some(raw_request@),
                None,
                "ollama"@,
            ),
            (false, Ok(text)) => answer matches Err(error) && reports(
                error,
                status.code,
                text@,
                "ollama"@,
            ),
            (false, Err(complaint)) => answer matches Err(error) && blames_server(
                error,
                "Error parsing error response: "@ + complaint@,
                Some(raw_request@),
                None,
                "ollama"@,
            ),
        },
{
    if let (true, Ok(text)) = (200 <= status.code <= 299, text) {
        let (raw_response, response) = choose|
            raw_response: &str,
            response: Result<OllamaResponse, String>,
        |
            {
                &&& raw_response@ == text@
                &&& #[trigger] read.ensures((raw_response,), response)
                &&& outcome(answer) == interpreted_reply(
                    response,
                    text@,
                    response_time,
                    raw_request@,
                    *request,
                )
            };
        if let Ok(response) = response {
            lemma_answer(
                answer->Ok_0,
                response,
                text@,
                Latency::NonStreaming { response_time },
                raw_request@,
                *request,
            );
        }
        assert(interprets(answer, response, text@, response_time, raw_request@, *request));
    }
}

/// The piece is what the gateway is to make of the chunk: its text, if it is not empty, as one
/// block with the id "0"; the token counts if and only if it is the last chunk and reports any;
/// that the model has stopped if and only if it is the last chunk; and the raw text and the time as
/// they are.
pub open spec fn is_piece_of(
    piece: ProviderInferenceResponseChunk,
    chunk: OllamaChatChunk,
    raw_chunk: Option<String>,
    latency: Duration,
) -> bool {
    &&& chunk.message.content@.len() == 0 ==> piece.content@.len() == 0
    &&& chunk.message.content@.len() > 0 ==> piece.content@.len() == 1 && (
    piece.content@[0] matches ContentBlockChunk::Text(block) && block.text@
        == chunk.message.content@ && block.id@ == "0"@)
    &&& piece.usage is Some <==> chunk.done && (chunk.prompt_tokens is Some
        || chunk.completion_tokens is Some)
    &&& piece.usage matches Some(usage) ==> counts(usage.input_tokens, chunk.prompt_tokens)
        && counts(usage.output_tokens, chunk.completion_tokens)
    &&& chunk.done ==> piece.finish_reason == Some(FinishReason::Stop)
    &&& !chunk.done ==> piece.finish_reason is None
    &&& match raw_chunk {
        Some(raw_chunk) => piece.raw_response@ == raw_chunk@,
        None => piece.raw_response@.len() == 0,
    }
    &&& piece.latency == latency
}

proof fn lemma_piece(
    piece: ProviderInferenceResponseChunk,
    chunk: OllamaChatChunk,
    raw_chunk: Option<String>,
    latency: Duration,
)
    requires
        piece.deep_view() == chunk_model(chunk, raw_chunk.deep_view(), latency),
    ensures
        is_piece_of(piece, chunk, raw_chunk, latency),
{
    let content = piece.content.deep_view();
    assert(content.len() == piece.content@.len());
    if content.len() > 0 {
        assert(content[0] == piece.content@[0].deep_view());
    }
}

/// Every chunk is converted to what the gateway is to make of it.
pub proof fn law_chunk(
    chunk: OllamaChatChunk,
    raw_chunk: Option<String>,
    latency: Duration,
    tool_call_ids: &mut [String],
    piece: ProviderInferenceResponseChunk,
)
    requires
        call_ensures(
            ollama_to_tensorzero_chunk,
            (chunk, raw_chunk, latency, tool_call_ids),
            piece,
        ),
    ensures
        is_piece_of(piece, chunk, raw_chunk, latency),
{
    lemma_piece(piece, chunk, raw_chunk, latency);
}

/// The error is the one for that failure of the event stream. It keeps the answer of the server
/// where there is one.
pub open spec fn reports_failure(
    error: Error,
    failure: EventSourceError,
    provider_type: Seq<char>,
) -> bool {
    match failure {
        EventSourceError::InvalidStatusCode { message, body: Some(body) } => blames_server(
            error,
            message@,
            None,
            Some(body@),
            provider_type,
        ),
        EventSourceError::InvalidStatusCode { message, body: None } => blames_server(
            error,
            message@,
            None,
            None,
            provider_type,
        ),
        EventSourceError::Other { message } => blames_server(
            error,
            message@,
            None,
            None,
            provider_type,
        ),
    }
}

/// Every failure of the event stream is reported as one of the server.
pub proof fn law_stream_failure(provider_type: String, failure: EventSourceError, error: Error)
    requires
        call_ensures(convert_stream_error, (provider_type, failure), error),
    ensures
        reports_failure(error, failure, provider_type@),
{
}

/// The item is the one for that event. A failure gives its error, a message that was read as a
/// chunk gives that chunk, whatever it holds, and a message that was not gives an error that keeps
/// it.
pub open spec fn is_item_for(
    item: Result<ProviderInferenceResponseChunk, Error>,
    event: Result<StreamEvent, TensorZeroEventError>,
    provider_type: Seq<char>,
) -> bool {
    match event {
        Err(TensorZeroEventError::TensorZero(failure)) => item matches Err(error)
            && error.deep_view() == failure.deep_view(),
        Err(TensorZeroEventError::EventSource(failure)) => item matches Err(error)
            && reports_failure(error, failure, provider_type),
        Ok(StreamEvent::Open) => false,
        Ok(StreamEvent::Message { data, chunk, latency }) => match chunk {
            Ok(received) => item matches Ok(piece) && is_piece_of(
                piece,
                received.chunk,
                received.raw_chunk,
                latency,
            ),
            Err(complaint) => item matches Err(error) && blames_server(
                error,
                "Error parsing Ollama chunk. Error: "@ + complaint@,
                None,
                Some(data@),
                provider_type,
            ),
        },
    }
}

/// The event is the message that ends the stream.
pub open spec fn is_end(event: Result<StreamEvent, TensorZeroEventError>) -> bool {
    event matches Ok(StreamEvent::Message { data, .. }) && data@ == "[DONE]"@
}

/// The event tells that the stream is open.
pub open spec fn is_opening(event: Result<StreamEvent, TensorZeroEventError>) -> bool {
    event matches Ok(StreamEvent::Open)
}

/// The message "[DONE]" ends the stream, the opening gives nothing, and every other event gives
/// exactly one item, the one for it.
pub proof fn law_step(
    provider_type: &str,
    event: Result<StreamEvent, TensorZeroEventError>,
    tool_call_ids: &mut [String],
    step: StreamStep,
)
    requires
        call_ensures(stream_step, (provider_type, event, tool_call_ids), step),
    ensures
        is_end(event) <==> step is Finish,
        is_opening(event) <==> step is Skip,
        !is_end(event) && !is_opening(event) ==> (step matches StreamStep::Item(item)
            && is_item_for(item, event, provider_type@)),
{
    assert(step.deep_view() == step_model(provider_type@, event));
    if let StreamStep::Item(item) = step {
        lemma_item(item, event, provider_type@);
    }
}

proof fn lemma_item(
    item: Result<ProviderInferenceResponseChunk, Error>,
    event: Result<StreamEvent, TensorZeroEventError>,
    provider_type: Seq<char>,
)
    requires
        step_model(provider_type, event) == StepModel::Item(outcome(item)),
    ensures
        is_item_for(item, event, provider_type),
{
    if let Ok(StreamEvent::Message { chunk: Ok(received), latency, .. }) = event {
        lemma_piece(item->Ok_0, received.chunk, received.raw_chunk, latency);
    }
}

/// A stream gives one item for each event up to the end, but for the openings, in order, each the
/// one for its event, and nothing for what comes after the end. `end` is where the stream ends: at
/// the first message "[DONE]", or after the last event if there is none.
pub proof fn law_stream(
    provider_type: String,
    events: Vec<Result<StreamEvent, TensorZeroEventError>>,
    items: Vec<Result<ProviderInferenceResponseChunk, Error>>,
    end: int,
)
    requires
        call_ensures(stream_ollama, (provider_type, events), items),
        0 <= end <= events@.len(),
        forall|i: int| 0 <= i < end ==> !is_end(#[trigger] events@[i]),
        end < events@.len() ==> is_end(events@[end]),
    ensures
        ({
            let heard = events@.take(end).filter(
                |event: Result<StreamEvent, TensorZeroEventError>| !is_opening(event),
            );
            &&& items@.len() == heard.len()
            &&& forall|k: int|
                0 <= k < items@.len() ==> is_item_for(
                    #[trigger] items@[k],
                    heard[k],
                    provider_type@,
                )
        }),
{
    let models = item_models(items@);
    let heard = events@.take(end).filter(
        |event: Result<StreamEvent, TensorZeroEventError>| !is_opening(event),
    );
    assert(models == stream_items(provider_type@, events@));
    lemma_stream_items(provider_type@, events@, end);
    assert forall|k: int| 0 <= k < items@.len() implies is_item_for(
        #[trigger] items@[k],
        heard[k],
        provider_type@,
    ) by {
        assert(models[k] == outcome(items@[k]));
        lemma_item(items@[k], heard[k], provider_type@);
    }
}

proof fn lemma_stream_items(
    provider_type: Seq<char>,
    events: Seq<Result<StreamEvent, TensorZeroEventError>>,
    end: int,
)
    requires
        0 <= end <= events.len(),
        forall|i: int| 0 <= i < end ==> !is_end(#[trigger] events[i]),
        end < events.len() ==> is_end(events[end]),
    ensures
        ({
            let heard = events.take(end).filter(
                |event: Result<StreamEvent, TensorZeroEventError>| !is_opening(event),
            );
            &&& stream_items(provider_type, events).len() == heard.len()
            &&& forall|k: int|
                0 <= k < heard.len() ==> step_model(provider_type, heard[k]) == StepModel::Item(
                    #[trigger] stream_items(provider_type, events)[k],
                )
        }),
    decreases events.len(),
{
    let is_heard = |event: Result<StreamEvent, TensorZeroEventError>| !is_opening(event);
    if end == 0 {
        assert(events.take(end) =~= Seq::empty());
        reveal(Seq::filter);
    } else {
        let rest = events.drop_first();
        assert(forall|i: int| 0 <= i < rest.len() ==> #[trigger] rest[i] == events[i + 1]);
        lemma_stream_items(provider_type, rest, end - 1);
        let first = seq![events[0]];
        assert(events.take(end) =~= first + rest.take(end - 1));
        Seq::filter_distributes_over_add(first, rest.take(end - 1), is_heard);
        assert(first.filter(is_heard) =~= if is_opening(events[0]) {
            Seq::empty()
        } else {
            first
        }) by {
            reveal_with_fuel(Seq::filter, 2);
            assert(first.drop_last() =~= Seq::empty());
        }
        let heard = events.take(end).filter(is_heard);
        let heard_rest = rest.take(end - 1).filter(is_heard);
        assert(!is_end(events[0]));
        if is_opening(events[0]) {
            assert(heard =~= heard_rest);
        } else {
            assert(heard =~= first + heard_rest);
            assert(stream_items(provider_type, events) =~= seq![
                step_model(provider_type, events[0])->Item_0,
            ] + stream_items(provider_type, rest));
        }
    }
}

/// As long as there is neither an opening nor an end, a stream has as many items as events, the
/// k-th for the k-th. In particular the last chunk of an answer gives an item, with the reason for
/// stopping, even if it holds no text.
pub proof fn law_every_message_is_heard(
    provider_type: String,
    events: Vec<Result<StreamEvent, TensorZeroEventError>>,
    items: Vec<Result<ProviderInferenceResponseChunk, Error>>,
)
    requires
        call_ensures(stream_ollama, (provider_type, events), items),
        forall|i: int|
            0 <= i < events@.len() ==> !is_end(#[trigger] events@[i]) && !is_opening(events@[i]),
    ensures
        items@.len() == events@.len(),
        forall|k: int|
            0 <= k < events@.len() ==> is_item_for(
                #[trigger] items@[k],
                events@[k],
                provider_type@,
            ),
        forall|k: int|
            0 <= k < events@.len() ==> (#[trigger] events@[k] matches Ok(
                StreamEvent::Message { chunk: Ok(received), .. },
            ) && received.chunk.done ==> (items@[k] matches Ok(piece) && piece.finish_reason
                == Some(FinishReason::Stop))),
{
    law_stream(provider_type, events, items, events@.len() as int);
    let is_heard = |event: Result<StreamEvent, TensorZeroEventError>| !is_opening(event);
    assert(events@.take(events@.len() as int) =~= events@);
    lemma_filter_keeps_all(events@, is_heard);
    assert(forall|k: int|
        #![trigger events@[k]]
        0 <= k < events@.len() ==> is_item_for(items@[k], events@[k], provider_type@));
}

proof fn lemma_filter_keeps_all<A>(s: Seq<A>, p: spec_fn(A) -> bool)
    requires
        forall|i: int| 0 <= i < s.len() ==> p(#[trigger] s[i]),
    ensures
        s.filter(p) == s,
    decreases s.len(),
{
    reveal(Seq::filter);
    if s.len() > 0 {
        lemma_filter_keeps_all(s.drop_last(), p);
        assert(s[s.len() - 1] == s.last());
        assert(s.drop_last().push(s.last()) =~= s);
    }
}

/// A message keeps its data, holds what the reader made of them and the time that was told, and for
/// a chunk what the writer made of the tree of that chunk.
pub proof fn law_received_message<
    R: FnOnce(&str) -> Result<OllamaChatChunk, String>,
    E: FnOnce() -> Duration,
    W: FnOnce(Json<'_>) -> Option<String>,
>(data: String, read: R, elapsed: E, write: W, event: StreamEvent)
    requires
        call_ensures(receive_message::<R, E, W>, (data, read, elapsed, write), event),
    ensures
        event matches StreamEvent::Message { data: kept, chunk, latency } && {
            &&& kept@ == data@
            &&& elapsed.ensures((), latency)
            &&& exists|text: &str, result: Result<OllamaChatChunk, String>|
                {
                    &&& #[trigger] read.ensures((text,), result)
                    &&& text@ == data@
                    &&& match (result, chunk) {
                        (Ok(read_chunk), Ok(received)) => received.chunk == read_chunk,
                        (Err(complaint), Err(kept_complaint)) => kept_complaint == complaint,
                        _ => false,
                    }
                }
            &&& chunk matches Ok(received) ==> exists|tree: Json<'_>| #[trigger]
                write.ensures((tree,), received.raw_chunk) && tree.deep_view() == chunk_json(
                    received.chunk,
                )
        },
{
}

} // verus!
