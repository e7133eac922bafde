//! What holds of the library as a whole.

use serde_json::Value;
use std::time::Duration;
use vstd::prelude::*;

use crate::credentials::{accepted_credentials, Credential};
use crate::error::{ErrorModel, StatusCode};
use crate::inference::{
    ContentBlock, FinishReason, ModelInferenceRequestJsonMode, RequestMessageModel,
};
use crate::json::JsonModel;
use crate::message::{
    assistant_block, assistant_block_error, assistant_blocks, assistant_errors, assistant_messages,
    assistant_tool_call, assistant_tool_calls, contain_case_insensitive, conversation,
    json_mentioned, lemma_made_to_say_json, message_models, prepared_messages, system_message_model,
    tool_message, tool_messages, user_block, user_block_error, user_blocks, user_errors,
    user_messages, ContentBlockModel, MessageModel,
};
use crate::provider::{received_reply, OllamaProvider};
use crate::request::request_model;
use crate::response::{chunk_model, OllamaChatChunk};
use crate::stream::{step_model, stream_items, StepModel, StreamEvent, TensorZeroEventError};
use crate::text::{has_substring, lowercase_of};
use crate::tool::{tools_model, ToolCallConfig};
use crate::wire::{chunk_json, content_json, provider_json, request_json};

verus! {

/// The message asks for JSON: it mentions it, whatever the case, or its instructions say "JSON".
pub open spec fn asks_for_json(message: MessageModel) -> bool {
    ||| message.contains_case_insensitive("json"@)
    ||| message matches MessageModel::System { content } && has_substring(content, "JSON"@)
}

/// With JSON mode on, some message of every prepared request asks for JSON, whatever the
/// conversation and the instructions are.
pub proof fn law_json_mode_asks_for_json(
    messages: Seq<RequestMessageModel>,
    system: Option<Seq<char>>,
)
    ensures
        prepared_messages(messages, system, ModelInferenceRequestJsonMode::On) matches Ok(prepared)
            ==> exists|i: int| 0 <= i < prepared.len() && asks_for_json(#[trigger] prepared[i]),
{
    let mode = ModelInferenceRequestJsonMode::On;
    if let Ok(told) = conversation(messages) {
        let prepared = prepared_messages(messages, system, mode)->Ok_0;
        let first = system_message_model(system, mode, json_mentioned(system, told))->0;
        assert(prepared == seq![first] + told);
        assert(prepared[0] == first);
        if contain_case_insensitive(told, "json"@) {
            let i = choose|i: int|
                0 <= i < told.len() && (#[trigger] told[i]).contains_case_insensitive("json"@);
            assert(prepared[i + 1] == told[i]);
            assert(asks_for_json(prepared[i + 1]));
        } else if system is Some && has_substring(lowercase_of(system->0), "json"@) {
            assert(asks_for_json(prepared[0]));
        } else {
            lemma_made_to_say_json(system);
            assert(asks_for_json(prepared[0]));
        }
    }
}

/// The JSON mode and the instructions decide over the system message alone: whether a conversation
/// can be converted, and what it is converted to, does not depend on them.
pub proof fn law_only_the_system_message_varies(
    messages: Seq<RequestMessageModel>,
    system: Option<Seq<char>>,
    json_mode: ModelInferenceRequestJsonMode,
)
    ensures
        match conversation(messages) {
            Err(error) => prepared_messages(messages, system, json_mode) == Err::<
                Seq<MessageModel>,
                ErrorModel,
            >(error),
            Ok(told) => prepared_messages(messages, system, json_mode) matches Ok(prepared) && {
                ||| prepared == told && system is None && !(json_mode is On)
                ||| prepared.len() == told.len() + 1 && prepared[0] is System && prepared.skip(1)
                    == told
            },
        },
{
    if let Ok(told) = conversation(messages) {
        if let Some(message) = system_message_model(
            system,
            json_mode,
            json_mentioned(system, told),
        ) {
            assert((seq![message] + told).skip(1) == told);
        }
    }
}

/// Without JSON mode, or in strict JSON mode, the instructions are passed on as they are.
pub proof fn law_instructions_pass_unchanged(
    messages: Seq<RequestMessageModel>,
    system: Seq<char>,
    json_mode: ModelInferenceRequestJsonMode,
)
    requires
        !(json_mode is On),
    ensures
        prepared_messages(messages, Some(system), json_mode) matches Ok(prepared) ==> prepared[0]
            == (MessageModel::System { content: system }),
{
}

/// A conversation in two parts is converted part by part.
pub proof fn law_conversation_in_parts(
    first: Seq<RequestMessageModel>,
    second: Seq<RequestMessageModel>,
)
    ensures
        conversation(first + second) == (match (conversation(first), conversation(second)) {
            (Err(error), _) => Err(error),
            (Ok(_), Err(error)) => Err(error),
            (Ok(told_first), Ok(told_second)) => Ok(told_first + told_second),
        }),
    decreases second.len(),
{
    if second.len() == 0 {
        assert(first + second == first);
        if let Ok(told) = conversation(first) {
            assert(told + Seq::<MessageModel>::empty() == told);
        }
    } else {
        law_conversation_in_parts(first, second.drop_last());
        assert((first + second).drop_last() == first + second.drop_last());
        assert((first + second).last() == second.last());
        if let (Ok(a), Ok(b), Ok(c)) = (
            conversation(first),
            conversation(second.drop_last()),
            message_models(second.last()),
        ) {
            assert(a + b + c == a + (b + c));
        }
    }
}

/// A conversation can be converted if and only if each of its messages can, and otherwise the
/// first that cannot decides the error.
pub proof fn law_first_failing_message_decides(messages: Seq<RequestMessageModel>)
    ensures
        conversation(messages) is Ok <==> forall|i: int|
            0 <= i < messages.len() ==> message_models(#[trigger] messages[i]) is Ok,
        conversation(messages) matches Err(error) ==> exists|i: int|
            {
                &&& 0 <= i < messages.len()
                &&& message_models(#[trigger] messages[i]) == Err::<Seq<MessageModel>, ErrorModel>(
                    error,
                )
                &&& forall|j: int|
                    0 <= j < i ==> message_models(#[trigger] messages[j]) is Ok
            },
    decreases messages.len(),
{
    if messages.len() > 0 {
        let earlier = messages.drop_last();
        law_first_failing_message_decides(earlier);
        assert(forall|i: int|
            0 <= i < earlier.len() ==> #[trigger] messages[i] == earlier[i]);
        assert(messages[messages.len() - 1] == messages.last());
        if let Err(error) = conversation(earlier) {
            let i = choose|i: int|
                {
                    &&& 0 <= i < earlier.len()
                    &&& message_models(#[trigger] earlier[i]) == Err::<
                        Seq<MessageModel>,
                        ErrorModel,
                    >(error)
                    &&& forall|j: int| 0 <= j < i ==> message_models(#[trigger] earlier[j]) is Ok
                };
            assert(message_models(messages[i]) is Err);
        } else {
            assert(forall|i: int|
                0 <= i < earlier.len() ==> message_models(#[trigger] earlier[i]) is Ok);
        }
    }
}

pub open spec fn is_thought(block: ContentBlock) -> bool {
    block is Thought
}

pub open spec fn thoughts(blocks: Seq<ContentBlock>) -> Seq<ContentBlock> {
    blocks.filter(|block: ContentBlock| is_thought(block))
}

/// A user message that can be converted loses nothing but its thoughts: every other block is in
/// the one user message or is a tool message, and none is in both.
pub proof fn law_user_message_loses_only_thoughts(blocks: Seq<ContentBlock>)
    requires
        user_messages(blocks) is Ok,
    ensures
        user_blocks(blocks).len() + tool_messages(blocks).len() + thoughts(blocks).len()
            == blocks.len(),
        forall|i: int| #![trigger blocks[i]]
            0 <= i < blocks.len() ==> {
                ||| user_block(blocks[i]) is Some && tool_message(blocks[i]) is None
                ||| user_block(blocks[i]) is None && tool_message(blocks[i]) is Some
                ||| blocks[i] is Thought && user_block(blocks[i]) is None && tool_message(
                    blocks[i],
                ) is None
            },
    decreases blocks.len(),
{
    reveal(Seq::filter);
    if blocks.len() > 0 {
        law_user_message_loses_only_thoughts(blocks.drop_last());
        assert(forall|i: int|
            0 <= i < blocks.len() - 1 ==> #[trigger] blocks[i] == blocks.drop_last()[i]);
    }
}

/// An assistant message that can be converted loses nothing but its thoughts: every other block is
/// content or is a tool call, and none is both.
pub proof fn law_assistant_message_loses_only_thoughts(blocks: Seq<ContentBlock>)
    requires
        assistant_messages(blocks) is Ok,
    ensures
        assistant_blocks(blocks).len() + assistant_tool_calls(blocks).len() + thoughts(blocks).len()
            == blocks.len(),
        forall|i: int| #![trigger blocks[i]]
            0 <= i < blocks.len() ==> {
                ||| assistant_block(blocks[i]) is Some && assistant_tool_call(blocks[i]) is None
                ||| assistant_block(blocks[i]) is None && assistant_tool_call(blocks[i]) is Some
                ||| blocks[i] is Thought && assistant_block(blocks[i]) is None
                    && assistant_tool_call(blocks[i]) is None
            },
    decreases blocks.len(),
{
    reveal(Seq::filter);
    if blocks.len() > 0 {
        law_assistant_message_loses_only_thoughts(blocks.drop_last());
        assert(forall|i: int|
            0 <= i < blocks.len() - 1 ==> #[trigger] blocks[i] == blocks.drop_last()[i]);
    }
}

/// Tool results go before everything else of their user message: the messages for it are tool
/// messages, as many as it holds results, and after them at most one user message, which is never
/// empty.
pub proof fn law_tool_results_go_first(blocks: Seq<ContentBlock>)
    ensures
        user_messages(blocks) matches Ok(messages) ==> {
            let results = tool_messages(blocks).len();
            &&& results <= messages.len() <= results + 1
            &&& forall|i: int| 0 <= i < results ==> (#[trigger] messages[i]) is Tool
            &&& messages.len() == results + 1 ==> (messages.last() matches MessageModel::User {
                content,
            } && content.len() > 0)
        },
{
    lemma_tool_messages(blocks);
}

proof fn lemma_tool_messages(blocks: Seq<ContentBlock>)
    ensures
        forall|i: int|
            0 <= i < tool_messages(blocks).len() ==> (#[trigger] tool_messages(blocks)[i]) is Tool,
    decreases blocks.len(),
{
    if blocks.len() > 0 {
        lemma_tool_messages(blocks.drop_last());
    }
}

/// An assistant message that can be converted is one message, whatever it holds, and neither its
/// content nor its tool calls are ever there and empty.
pub proof fn law_assistant_message_stays_one(blocks: Seq<ContentBlock>)
    ensures
        assistant_messages(blocks) matches Ok(messages) ==> {
            &&& messages.len() == 1
            &&& messages[0] matches MessageModel::Assistant { content, tool_calls } && {
                &&& content matches Some(content) ==> content.len() > 0
                &&& tool_calls matches Some(tool_calls) ==> tool_calls.len() > 0
            }
        },
{
}

/// A user message is refused if and only if it holds a tool call or a file whose data could
/// not be had, an assistant message if and only if it holds a tool result or such a file.
pub proof fn law_refused_messages(blocks: Seq<ContentBlock>)
    ensures
        user_messages(blocks) is Err <==> exists|i: int|
            0 <= i < blocks.len() && ((#[trigger] blocks[i]) is ToolCall || lacks_data(blocks[i])),
        assistant_messages(blocks) is Err <==> exists|i: int|
            0 <= i < blocks.len() && ((#[trigger] blocks[i]) is ToolResult || lacks_data(
                blocks[i],
            )),
    decreases blocks.len(),
{
    if blocks.len() > 0 {
        let earlier = blocks.drop_last();
        law_refused_messages(earlier);
        let last = blocks[blocks.len() - 1];
        assert(forall|i: int|
            #![trigger blocks[i]]
            #![trigger earlier[i]]
            0 <= i < earlier.len() ==> earlier[i] == blocks[i]);
        assert(user_errors(blocks).len() > 0 <==> user_errors(earlier).len() > 0
            || user_block_error(last) is Some);
        assert(assistant_errors(blocks).len() > 0 <==> assistant_errors(earlier).len() > 0
            || assistant_block_error(last) is Some);
    }
}

/// The block is a file whose data could not be had.
pub open spec fn lacks_data(block: ContentBlock) -> bool {
    block matches ContentBlock::File(file) && file.file.data is Err
}

/// Tools and the choice among them come together or not at all, and nothing is said of parallel
/// calls where there are none.
pub proof fn law_tools_and_choice_together(tool_config: Option<ToolCallConfig>)
    ensures
        tools_model(tool_config).0 is Some <==> tools_model(tool_config).1 is Some,
        tools_model(tool_config).0 is None ==> tools_model(tool_config).2 is None,
        tools_model(tool_config).0 matches Some(tools) ==> tools.len() > 0,
{
}

/// A missing key is treated like one that is not needed.
pub proof fn law_missing_key_is_no_key<K>()
    ensures
        accepted_credentials(Credential::<K>::Missing) == accepted_credentials(
            Credential::<K>::NoKey,
        ),
{
}

/// A call that can be made carries a key if and only if the credentials are not empty.
pub proof fn law_key_is_sent<K>(
    provider: OllamaProvider<K>,
    body: Result<Value, String>,
    dynamic_api_keys: Map<Seq<char>, K>,
)
    ensures
        provider.infer_call(body, dynamic_api_keys) matches Ok(call) ==> (call.api_key is Some
            <==> !(provider.credentials() is NoKey)),
        provider.infer_stream_call(body, dynamic_api_keys) matches Ok(call) ==> (
        call.api_key is Some <==> !(provider.credentials() is NoKey)),
{
}

/// Nothing of a provider's credentials can be told from how it is written.
pub proof fn law_credentials_are_not_written<K>(
    provider: OllamaProvider<K>,
    other: OllamaProvider<K>,
)
    requires
        provider.model() == other.model(),
    ensures
        provider_json(provider) == provider_json(other),
{
}

/// A whole answer and a streamed one are asked for by the same call, and neither can be asked for
/// where the other cannot. With a body that was written, they also fail in the same way.
pub proof fn law_whole_and_streamed_calls_agree<K>(
    provider: OllamaProvider<K>,
    body: Result<Value, String>,
    dynamic_api_keys: Map<Seq<char>, K>,
)
    ensures
        match (
            provider.infer_call(body, dynamic_api_keys),
            provider.infer_stream_call(body, dynamic_api_keys),
        ) {
            (Ok(whole), Ok(streamed)) => whole == streamed,
            (Err(_), Err(_)) => true,
            _ => false,
        },
        body is Ok ==> provider.infer_call(body, dynamic_api_keys) == provider.infer_stream_call(
            body,
            dynamic_api_keys,
        ),
{
}

/// Only a reply with a successful status is read as an answer. A failing one whose text was
/// received gives the client's error for the four statuses that blame the caller, and the server's
/// error for all others.
pub proof fn law_failing_status_is_an_error(
    status: StatusCode,
    text: Result<String, String>,
    raw_request: Seq<char>,
)
    ensures
        received_reply(status, text, raw_request) is Ok <==> status.success() && text is Ok,
        !status.success() && text is Ok ==> {
            let error = received_reply(status, text, raw_request)->Err_0;
            &&& status.blames_client() <==> error is InferenceClient
            &&& !status.blames_client() <==> error is InferenceServer
        },
{
}

/// Token counts come only with the chunk that reports the end.
pub proof fn law_usage_comes_with_the_end(
    chunk: OllamaChatChunk,
    raw_chunk: Option<Seq<char>>,
    latency: Duration,
)
    ensures
        chunk_model(chunk, raw_chunk, latency).usage is Some ==> chunk_model(
            chunk,
            raw_chunk,
            latency,
        ).finish_reason == Some(FinishReason::Stop),
{
}

/// The chunks agree in every field.
pub open spec fn same_chunk(chunk: OllamaChatChunk, other: OllamaChatChunk) -> bool {
    &&& chunk.model@ == other.model@
    &&& chunk.created_at@ == other.created_at@
    &&& chunk.message.role@ == other.message.role@
    &&& chunk.message.content@ == other.message.content@
    &&& chunk.done == other.done
    &&& chunk.completion_tokens == other.completion_tokens
    &&& chunk.prompt_tokens == other.prompt_tokens
    &&& chunk.total_duration == other.total_duration
    &&& chunk.load_duration == other.load_duration
    &&& chunk.prompt_eval_duration == other.prompt_eval_duration
    &&& chunk.eval_duration == other.eval_duration
}

/// Chunks that are written alike agree in every field.
pub proof fn law_written_chunk_keeps_every_field(chunk: OllamaChatChunk, other: OllamaChatChunk)
    requires
        chunk_json(chunk) == chunk_json(other),
    ensures
        same_chunk(chunk, other),
{
    let written = chunk_json(chunk)->Object_0;
    let rewritten = chunk_json(other)->Object_0;
    assert(forall|i: int| 0 <= i < 10 ==> #[trigger] written[i] == rewritten[i]);
    assert(written[2].1->Object_0[0] == rewritten[2].1->Object_0[0]);
    assert(written[2].1->Object_0[1] == rewritten[2].1->Object_0[1]);
}

/// The raw text of a converted chunk gives the chunk back, for every way `tree_of` of reading a
/// text as a tree that reads the raw text as the tree that was written: a chunk with the tree that
/// is read from the raw text agrees with the one that was converted in every field.
pub proof fn law_raw_text_gives_the_chunk_back(
    chunk: OllamaChatChunk,
    raw_chunk: Seq<char>,
    latency: Duration,
    tree_of: spec_fn(Seq<char>) -> JsonModel,
    read_back: OllamaChatChunk,
)
    requires
        tree_of(raw_chunk) == chunk_json(chunk),
        chunk_json(read_back) == tree_of(
            chunk_model(chunk, Some(raw_chunk), latency).raw_response,
        ),
    ensures
        same_chunk(chunk, read_back),
{
    law_written_chunk_keeps_every_field(chunk, read_back);
}

/// The event is the message that ends a stream.
pub open spec fn ends_stream(event: Result<StreamEvent, TensorZeroEventError>) -> bool {
    event matches Ok(StreamEvent::Message { data, .. }) && data@ == "[DONE]"@
}

/// As long as no event ends the stream, its items are those of its parts, one after the other.
pub proof fn law_stream_in_parts(
    provider_type: Seq<char>,
    first: Seq<Result<StreamEvent, TensorZeroEventError>>,
    second: Seq<Result<StreamEvent, TensorZeroEventError>>,
)
    requires
        forall|i: int| 0 <= i < first.len() ==> !ends_stream(#[trigger] first[i]),
    ensures
        stream_items(provider_type, first + second) == stream_items(provider_type, first)
            + stream_items(provider_type, second),
    decreases first.len(),
{
    if first.len() == 0 {
        assert(first + second == second);
    } else {
        assert(!ends_stream(first[0]));
        law_stream_in_parts(provider_type, first.drop_first(), second);
        assert((first + second).drop_first() == first.drop_first() + second);
        assert((first + second)[0] == first[0]);
        let rest_first = stream_items(provider_type, first.drop_first());
        let rest_second = stream_items(provider_type, second);
        if let StepModel::Item(item) = step_model(provider_type, first[0]) {
            assert(seq![item] + (rest_first + rest_second) == seq![item] + rest_first
                + rest_second);
        }
    }
}

/// Nothing that comes after the message `[DONE]` reaches the gateway.
pub proof fn law_nothing_after_done(
    provider_type: Seq<char>,
    before: Seq<Result<StreamEvent, TensorZeroEventError>>,
    done: Result<StreamEvent, TensorZeroEventError>,
    after: Seq<Result<StreamEvent, TensorZeroEventError>>,
)
    requires
        ends_stream(done),
    ensures
        stream_items(provider_type, before.push(done) + after) == stream_items(
            provider_type,
            before,
        ),
    decreases before.len(),
{
    let events = before.push(done) + after;
    if before.len() == 0 {
        assert(events[0] == done);
    } else {
        law_nothing_after_done(provider_type, before.drop_first(), done, after);
        assert(events[0] == before[0]);
        assert(events.drop_first() == before.drop_first().push(done) + after);
    }
}

/// A failure in the middle of a stream is passed on and does not end it.
pub proof fn law_failure_does_not_end_the_stream(
    provider_type: Seq<char>,
    failure: TensorZeroEventError,
    after: Seq<Result<StreamEvent, TensorZeroEventError>>,
)
    ensures
        ({
            let failed = Err::<StreamEvent, TensorZeroEventError>(failure);
            let items = stream_items(provider_type, seq![failed] + after);
            &&& items.len() > 0
            &&& items[0] is Err
            &&& items.drop_first() == stream_items(provider_type, after)
        }),
{
    let failed = Err::<StreamEvent, TensorZeroEventError>(failure);
    let events = seq![failed] + after;
    assert(events[0] == failed);
    assert(events.drop_first() == after);
    let item = step_model(provider_type, failed)->Item_0;
    assert((seq![item] + stream_items(provider_type, after)).drop_first() == stream_items(
        provider_type,
        after,
    ));
}

/// The content of a message is written as a plain text if and only if it is a single text block,
/// and as an array of as many entries as there are blocks otherwise.
pub proof fn law_single_text_is_written_plainly(content: Seq<ContentBlockModel>)
    ensures
        content_json(content) is Str <==> content.len() == 1 && content[0] is Text,
        !(content_json(content) is Str) ==> (content_json(content) matches JsonModel::Array(items)
            && items.len() == content.len()),
{
}

/// The body of a chat request names the model, holds no message, asks for JSON exactly when a JSON
/// mode is set, and never asks for a stream.
pub proof fn law_chat_request_body(
    model_name: Seq<char>,
    json_mode: ModelInferenceRequestJsonMode,
)
    ensures
        request_json(request_model(model_name, json_mode)) == JsonModel::Object(
            if json_mode is Off {
                seq![
                    ("model"@, JsonModel::Str(model_name)),
                    ("messages"@, JsonModel::Array(Seq::empty())),
                    ("stream"@, JsonModel::Bool(false)),
                ]
            } else {
                seq![
                    ("model"@, JsonModel::Str(model_name)),
                    ("messages"@, JsonModel::Array(Seq::empty())),
                    ("format"@, JsonModel::Str("json"@)),
                    ("stream"@, JsonModel::Bool(false)),
                ]
            },
        ),
{
    let body = request_json(request_model(model_name, json_mode));
    assert(body->Object_0[1].1->Array_0 == Seq::<JsonModel>::empty());
    if json_mode is Off {
        assert(body->Object_0 == seq![
            ("model"@, JsonModel::Str(model_name)),
            ("messages"@, JsonModel::Array(Seq::empty())),
            ("stream"@, JsonModel::Bool(false)),
        ]);
    } else {
        assert(body->Object_0 == seq![
            ("model"@, JsonModel::Str(model_name)),
            ("messages"@, JsonModel::Array(Seq::empty())),
            ("format"@, JsonModel::Str("json"@)),
            ("stream"@, JsonModel::Bool(false)),
        ]);
    }
}

} // verus!
