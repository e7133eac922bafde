//! What holds of every message and every tool that is put in Ollama's form.
//!
//! The laws speak of what the functions return: `call_ensures(f, (argument,), result)` says that
//! `f` may have returned `result` for `argument`.

use std::borrow::Cow;
use vstd::prelude::*;

use crate::error::{outcome, Error, ErrorModel};
use crate::inference::{
    clone_messages, Base64File, ContentBlock, ModelInferenceRequest, RequestMessage, Role, Thought,
    ToolCall,
};
use crate::message::{
    assistant_block, assistant_block_error, assistant_blocks, assistant_errors, assistant_tool_call,
    assistant_tool_calls, block_error, discarded_thoughts, dropped_thoughts,
    tensorzero_to_ollama_assistant_message, tensorzero_to_ollama_message,
    tensorzero_to_ollama_user_message, tool_message, tool_messages, user_block, user_block_error,
    user_blocks, user_errors, OllamaContentBlock, OllamaRequestMessage, OllamaRequestToolCall,
};
use crate::tool::{
    prepare_ollama_tools, OllamaTool, OllamaToolChoice, OllamaToolChoiceString, ToolChoice,
    ToolConfig,
};

verus! {

/// The tool results among the blocks, in order.
pub open spec fn results(blocks: Seq<ContentBlock>) -> Seq<ContentBlock> {
    blocks.filter(|block: ContentBlock| block is ToolResult)
}

/// The tool calls among the blocks, in order.
pub open spec fn calls(blocks: Seq<ContentBlock>) -> Seq<ContentBlock> {
    blocks.filter(|block: ContentBlock| block is ToolCall)
}

/// The thoughts among the blocks, in order.
pub open spec fn thought_blocks(blocks: Seq<ContentBlock>) -> Seq<ContentBlock> {
    blocks.filter(|block: ContentBlock| block is Thought)
}

/// The texts, files and blocks of an unknown shape among the blocks, in order.
pub open spec fn shown(blocks: Seq<ContentBlock>) -> Seq<ContentBlock> {
    blocks.filter(|block: ContentBlock| block is Text || block is File || block is Unknown)
}

/// The block cannot stand in a message of that role: a tool call is not the user's, a tool result
/// is not the assistant's, and a file needs its data.
pub open spec fn is_refused(role: Role, block: ContentBlock) -> bool {
    match block {
        ContentBlock::ToolCall(_) => role is User,
        ContentBlock::ToolResult(_) => role is Assistant,
        ContentBlock::File(file) => file.file.data is Err,
        _ => false,
    }
}

/// The error says why the block cannot stand in a message of that role.
pub open spec fn explains(error: Error, role: Role, block: ContentBlock) -> bool {
    match block {
        ContentBlock::ToolCall(_) => role is User && error.deep_view() == (
        ErrorModel::InvalidMessage { message: "Tool calls are not supported in user messages"@ }),
        ContentBlock::ToolResult(_) => role is Assistant && error.deep_view() == (
        ErrorModel::InvalidMessage {
            message: "Tool results are not supported in assistant messages"@,
        }),
        ContentBlock::File(file) => file.file.data matches Err(reported) && error.deep_view()
            == reported.deep_view(),
        _ => false,
    }
}

/// The block tells Ollama what the gateway's block holds: the same text, the same unknown value, or
/// the file as an address that starts with `before`, its MIME type, `between` and its data.
pub open spec fn tells(
    told: OllamaContentBlock<'_>,
    block: ContentBlock,
    before: Seq<char>,
    between: Seq<char>,
) -> bool {
    match block {
        ContentBlock::Text(text) => told matches OllamaContentBlock::Text { text: kept } && kept@
            == text.text@,
        ContentBlock::File(file) => told matches OllamaContentBlock::ImageUrl { image_url }
            && file.file.data matches Ok(data) && image_url.url@ == before + file.file.mime_type@
            + between + data@,
        ContentBlock::Unknown { data, .. } => told matches OllamaContentBlock::Unknown {
            data: kept,
        } && match kept {
            Cow::Borrowed(kept) => *kept == data,
            Cow::Owned(kept) => kept == data,
        },
        _ => false,
    }
}

/// Mapping what a filter keeps is the same as filtering what a map gives.
proof fn lemma_filter_map_is_filter<A, B>(
    s: Seq<A>,
    f: spec_fn(A) -> Option<B>,
    p: spec_fn(A) -> bool,
)
    requires
        forall|i: int| 0 <= i < s.len() ==> (f(#[trigger] s[i]) is Some <==> p(s[i])),
    ensures
        s.filter_map(f).len() == s.filter(p).len(),
        forall|k: int|
            0 <= k < s.filter(p).len() ==> Some(#[trigger] s.filter_map(f)[k]) == f(s.filter(p)[k]),
        forall|k: int| 0 <= k < s.filter(p).len() ==> p(#[trigger] s.filter(p)[k]),
    decreases s.len(),
{
    reveal(Seq::filter);
    if s.len() > 0 {
        let earlier = s.drop_last();
        assert(forall|i: int| 0 <= i < earlier.len() ==> #[trigger] earlier[i] == s[i]);
        lemma_filter_map_is_filter(earlier, f, p);
        assert(s[s.len() - 1] == s.last());
    }
}

/// The first element that gives something is the first that is given.
proof fn lemma_first_given<A, B>(s: Seq<A>, f: spec_fn(A) -> Option<B>) -> (first: int)
    ensures
        s.filter_map(f).len() == 0 ==> forall|i: int|
            0 <= i < s.len() ==> f(#[trigger] s[i]) is None,
        s.filter_map(f).len() > 0 ==> {
            &&& 0 <= first < s.len()
            &&& f(s[first]) == Some(s.filter_map(f)[0])
            &&& forall|j: int| 0 <= j < first ==> f(#[trigger] s[j]) is None
        },
    decreases s.len(),
{
    if s.len() > 0 {
        let earlier = s.drop_last();
        assert(forall|i: int|
            #![trigger s[i]]
            #![trigger earlier[i]]
            0 <= i < earlier.len() ==> earlier[i] == s[i]);
        let first = lemma_first_given(earlier, f);
        assert(s[s.len() - 1] == s.last());
        if earlier.filter_map(f).len() > 0 {
            first
        } else {
            s.len() - 1
        }
    } else {
        0
    }
}

proof fn lemma_refused(role: Role, blocks: Seq<ContentBlock>)
    ensures
        forall|i: int|
            0 <= i < blocks.len() ==> (is_refused(role, #[trigger] blocks[i]) <==> block_error(
                role,
                blocks[i],
            ) is Some),
{
}

/// A user message is refused if and only if it holds a tool call or a file whose data could not be
/// had, and the first such block decides the error.
pub proof fn law_user_message_refusal<'a>(
    blocks: &'a [ContentBlock],
    messages: Result<Vec<OllamaRequestMessage<'a>>, Error>,
)
    requires
        call_ensures(tensorzero_to_ollama_user_message, (blocks,), messages),
    ensures
        messages is Err <==> exists|i: int|
            0 <= i < blocks@.len() && is_refused(Role::User, #[trigger] blocks@[i]),
        messages matches Err(error) ==> exists|i: int|
            {
                &&& 0 <= i < blocks@.len()
                &&& explains(error, Role::User, #[trigger] blocks@[i])
                &&& forall|j: int| 0 <= j < i ==> !is_refused(Role::User, #[trigger] blocks@[j])
            },
{
    lemma_refused(Role::User, blocks@);
    let first = lemma_first_given(blocks@, |block: ContentBlock| user_block_error(block));
    if let Err(error) = messages {
        assert(error.deep_view() == user_errors(blocks@)[0]);
        assert(is_refused(Role::User, blocks@[first]));
        assert(explains(error, Role::User, blocks@[first]));
    }
}

/// An assistant message is refused if and only if it holds a tool result or a file whose data could
/// not be had, and the first such block decides the error.
pub proof fn law_assistant_message_refusal<'a>(
    blocks: &'a [ContentBlock],
    messages: Result<Vec<OllamaRequestMessage<'a>>, Error>,
)
    requires
        call_ensures(tensorzero_to_ollama_assistant_message, (blocks,), messages),
    ensures
        messages is Err <==> exists|i: int|
            0 <= i < blocks@.len() && is_refused(Role::Assistant, #[trigger] blocks@[i]),
        messages matches Err(error) ==> exists|i: int|
            {
                &&& 0 <= i < blocks@.len()
                &&& explains(error, Role::Assistant, #[trigger] blocks@[i])
                &&& forall|j: int|
                    0 <= j < i ==> !is_refused(Role::Assistant, #[trigger] blocks@[j])
            },
{
    lemma_refused(Role::Assistant, blocks@);
    let first = lemma_first_given(blocks@, |block: ContentBlock| assistant_block_error(block));
    if let Err(error) = messages {
        assert(error.deep_view() == assistant_errors(blocks@)[0]);
        assert(is_refused(Role::Assistant, blocks@[first]));
        assert(explains(error, Role::Assistant, blocks@[first]));
    }
}

/// The messages for a user message are a tool message for each tool result, in order, with its
/// result and its id, and then, if and only if the message holds a text, a file or a block of an
/// unknown shape, one user message.
pub proof fn law_user_tool_results<'a>(
    blocks: &'a [ContentBlock],
    messages: Result<Vec<OllamaRequestMessage<'a>>, Error>,
)
    requires
        call_ensures(tensorzero_to_ollama_user_message, (blocks,), messages),
    ensures
        messages matches Ok(messages) ==> {
            &&& messages@.len() == results(blocks@).len() + if shown(blocks@).len() > 0 {
                1int
            } else {
                0int
            }
            &&& forall|k: int|
                0 <= k < results(blocks@).len() ==> {
                    &&& #[trigger] messages@[k] matches OllamaRequestMessage::Tool(message)
                    &&& results(blocks@)[k] matches ContentBlock::ToolResult(result)
                    &&& message.content@ == result.result@
                    &&& message.tool_call_id@ == result.id@
                }
            &&& shown(blocks@).len() > 0 ==> messages@[results(blocks@).len() as int] is User
        },
{
    if let Ok(messages) = messages {
        lemma_user_parts(blocks@);
        assert(forall|k: int|
            0 <= k < messages@.len() ==> messages.deep_view()[k] == (
            #[trigger] messages@[k]).deep_view());
        assert(messages.deep_view().len() == messages@.len());
        assert(forall|k: int|
            0 <= k < results(blocks@).len() ==> messages.deep_view()[k] == #[trigger] tool_messages(
                blocks@,
            )[k]);
    }
}

/// The user message for a user message that can be converted holds its texts, files and blocks of
/// an unknown shape, all of them, in order, and nothing else. The address of a file is "data: ",
/// its MIME type, "; base64," and its data.
pub proof fn law_user_content<'a>(
    blocks: &'a [ContentBlock],
    messages: Result<Vec<OllamaRequestMessage<'a>>, Error>,
)
    requires
        call_ensures(tensorzero_to_ollama_user_message, (blocks,), messages),
        shown(blocks@).len() > 0,
    ensures
        messages matches Ok(messages) ==> {
            &&& messages@.last() matches OllamaRequestMessage::User(message)
            &&& message.content@.len() == shown(blocks@).len()
            &&& forall|k: int|
                0 <= k < shown(blocks@).len() ==> tells(
                    #[trigger] message.content@[k],
                    shown(blocks@)[k],
                    "data: "@,
                    "; base64,"@,
                )
        },
{
    if let Ok(messages) = messages {
        lemma_user_parts(blocks@);
        law_user_tool_results(blocks, Ok(messages));
        let last = messages@.len() - 1;
        assert(messages.deep_view()[last] == messages@[last].deep_view());
        let message = messages@[last]->User_0;
        assert(message.content.deep_view() == user_blocks(blocks@));
        assert forall|k: int| 0 <= k < shown(blocks@).len() implies tells(
            #[trigger] message.content@[k],
            shown(blocks@)[k],
            "data: "@,
            "; base64,"@,
        ) by {
            assert(message.content.deep_view()[k] == message.content@[k].deep_view());
            assert(Some(user_blocks(blocks@)[k]) == user_block(shown(blocks@)[k]));
        }
    }
}

proof fn lemma_user_parts(blocks: Seq<ContentBlock>)
    requires
        user_errors(blocks).len() == 0,
    ensures
        user_blocks(blocks).len() == shown(blocks).len(),
        forall|k: int|
            0 <= k < shown(blocks).len() ==> Some(#[trigger] user_blocks(blocks)[k]) == user_block(
                shown(blocks)[k],
            ),
        tool_messages(blocks).len() == results(blocks).len(),
        forall|k: int|
            0 <= k < results(blocks).len() ==> Some(#[trigger] tool_messages(blocks)[k])
                == tool_message(results(blocks)[k]),
{
    lemma_refused(Role::User, blocks);
    let first = lemma_first_given(blocks, |block: ContentBlock| user_block_error(block));
    lemma_filter_map_is_filter(
        blocks,
        |block: ContentBlock| user_block(block),
        |block: ContentBlock| block is Text || block is File || block is Unknown,
    );
    lemma_filter_map_is_filter(
        blocks,
        |block: ContentBlock| tool_message(block),
        |block: ContentBlock| block is ToolResult,
    );
}

/// An assistant message that can be converted gives one assistant message. It has tool calls if and
/// only if some block is a tool call: as many as there are such blocks, the k-th with the id, the
/// name and the arguments of the k-th, whatever the other blocks are.
pub proof fn law_assistant_tool_calls<'a>(
    blocks: &'a [ContentBlock],
    messages: Result<Vec<OllamaRequestMessage<'a>>, Error>,
)
    requires
        call_ensures(tensorzero_to_ollama_assistant_message, (blocks,), messages),
    ensures
        messages matches Ok(messages) ==> {
            &&& messages@.len() == 1
            &&& messages@[0] matches OllamaRequestMessage::Assistant(message)
            &&& message.tool_calls is Some <==> exists|i: int|
                0 <= i < blocks@.len() && (#[trigger] blocks@[i]) is ToolCall
            &&& message.tool_calls matches Some(tool_calls) ==> {
                &&& tool_calls@.len() == calls(blocks@).len()
                &&& forall|k: int|
                    0 <= k < calls(blocks@).len() ==> {
                        &&& calls(blocks@)[k] matches ContentBlock::ToolCall(call)
                        &&& (#[trigger] tool_calls@[k]).id@ == call.id@
                        &&& tool_calls@[k].kind is Function
                        &&& tool_calls@[k].function.name@ == call.name@
                        &&& tool_calls@[k].function.arguments@ == call.arguments@
                    }
            }
        },
{
    if let Ok(messages) = messages {
        lemma_assistant_parts(blocks@);
        lemma_some_kept(blocks@, |block: ContentBlock| block is ToolCall);
        assert(messages.deep_view().len() == messages@.len());
        assert(messages.deep_view()[0] == messages@[0].deep_view());
        let message = messages@[0]->Assistant_0;
        if let Some(tool_calls) = message.tool_calls {
            assert(tool_calls.deep_view() == assistant_tool_calls(blocks@));
            assert forall|k: int| 0 <= k < calls(blocks@).len() implies {
                &&& calls(blocks@)[k] matches ContentBlock::ToolCall(call)
                &&& (#[trigger] tool_calls@[k]).id@ == call.id@
                &&& tool_calls@[k].kind is Function
                &&& tool_calls@[k].function.name@ == call.name@
                &&& tool_calls@[k].function.arguments@ == call.arguments@
            } by {
                assert(tool_calls.deep_view()[k] == tool_calls@[k].deep_view());
                assert(Some(assistant_tool_calls(blocks@)[k]) == assistant_tool_call(
                    calls(blocks@)[k],
                ));
            }
        }
    }
}

/// The assistant message for one that can be converted has content if and only if some block is a
/// text, a file or of an unknown shape. It then holds all of them, in order, and nothing else. The
/// address of a file is "data:", its MIME type, ";base64," and its data.
pub proof fn law_assistant_content<'a>(
    blocks: &'a [ContentBlock],
    messages: Result<Vec<OllamaRequestMessage<'a>>, Error>,
)
    requires
        call_ensures(tensorzero_to_ollama_assistant_message, (blocks,), messages),
    ensures
        messages matches Ok(messages) ==> {
            &&& messages@.len() == 1
            &&& messages@[0] matches OllamaRequestMessage::Assistant(message)
            &&& message.content is Some <==> exists|i: int|
                0 <= i < blocks@.len() && {
                    let block = #[trigger] blocks@[i];
                    block is Text || block is File || block is Unknown
                }
            &&& message.content matches Some(content) ==> {
                &&& content@.len() == shown(blocks@).len()
                &&& forall|k: int|
                    0 <= k < shown(blocks@).len() ==> tells(
                        #[trigger] content@[k],
                        shown(blocks@)[k],
                        "data:"@,
                        ";base64,"@,
                    )
            }
        },
{
    if let Ok(messages) = messages {
        lemma_assistant_parts(blocks@);
        lemma_some_kept(
            blocks@,
            |block: ContentBlock| block is Text || block is File || block is Unknown,
        );
        assert(messages.deep_view().len() == messages@.len());
        assert(messages.deep_view()[0] == messages@[0].deep_view());
        let message = messages@[0]->Assistant_0;
        if let Some(content) = message.content {
            assert(content.deep_view() == assistant_blocks(blocks@));
            assert forall|k: int| 0 <= k < shown(blocks@).len() implies tells(
                #[trigger] content@[k],
                shown(blocks@)[k],
                "data:"@,
                ";base64,"@,
            ) by {
                assert(content.deep_view()[k] == content@[k].deep_view());
                assert(Some(assistant_blocks(blocks@)[k]) == assistant_block(shown(blocks@)[k]));
            }
        }
    }
}

proof fn lemma_assistant_parts(blocks: Seq<ContentBlock>)
    requires
        assistant_errors(blocks).len() == 0,
    ensures
        assistant_blocks(blocks).len() == shown(blocks).len(),
        forall|k: int|
            0 <= k < shown(blocks).len() ==> Some(#[trigger] assistant_blocks(blocks)[k])
                == assistant_block(shown(blocks)[k]),
        assistant_tool_calls(blocks).len() == calls(blocks).len(),
        forall|k: int|
            0 <= k < calls(blocks).len() ==> Some(#[trigger] assistant_tool_calls(blocks)[k])
                == assistant_tool_call(calls(blocks)[k]),
{
    lemma_refused(Role::Assistant, blocks);
    let first = lemma_first_given(blocks, |block: ContentBlock| assistant_block_error(block));
    lemma_filter_map_is_filter(
        blocks,
        |block: ContentBlock| assistant_block(block),
        |block: ContentBlock| block is Text || block is File || block is Unknown,
    );
    lemma_filter_map_is_filter(
        blocks,
        |block: ContentBlock| assistant_tool_call(block),
        |block: ContentBlock| block is ToolCall,
    );
}

/// A filter keeps something if and only if there is something to keep.
proof fn lemma_some_kept<A>(s: Seq<A>, p: spec_fn(A) -> bool)
    ensures
        s.filter(p).len() > 0 <==> exists|i: int| 0 <= i < s.len() && p(#[trigger] s[i]),
    decreases s.len(),
{
    reveal(Seq::filter);
    if s.len() > 0 {
        let earlier = s.drop_last();
        lemma_some_kept(earlier, p);
        assert(forall|i: int|
            #![trigger s[i]]
            #![trigger earlier[i]]
            0 <= i < earlier.len() ==> earlier[i] == s[i]);
        assert(s[s.len() - 1] == s.last());
    }
}

/// Addresses that are the same, of files that share their MIME type or their data, are of files
/// that share both.
proof fn lemma_addresses_differ(
    told: OllamaContentBlock<'_>,
    block: ContentBlock,
    other_told: OllamaContentBlock<'_>,
    other: ContentBlock,
    before: Seq<char>,
    between: Seq<char>,
)
    requires
        tells(told, block, before, between),
        tells(other_told, other, before, between),
        block is File,
        other is File,
        told.deep_view() == other_told.deep_view(),
    ensures
        same_file_if_half_is(block, other),
{
    let file = block->File_0.file;
    let other_file = other->File_0.file;
    let url = before + file.mime_type@ + between + file.data->Ok_0@;
    let other_url = before + other_file.mime_type@ + between + other_file.data->Ok_0@;
    let start = before.len() as int;
    if file.data->Ok_0@ == other_file.data->Ok_0@ {
        let end = start + file.mime_type@.len();
        assert(url.len() == end + between.len() + file.data->Ok_0@.len());
        assert(file.mime_type@.len() == other_file.mime_type@.len());
        assert(url.subrange(start, end) =~= file.mime_type@);
        assert(other_url.subrange(start, end) =~= other_file.mime_type@);
    }
    if file.mime_type@ == other_file.mime_type@ {
        let end = start + file.mime_type@.len() + between.len();
        assert(url.skip(end) =~= file.data->Ok_0@);
        assert(other_url.skip(end) =~= other_file.data->Ok_0@);
    }
}

/// If the files have the same data they have the same MIME type, and the other way round.
pub open spec fn same_file_if_half_is(block: ContentBlock, other: ContentBlock) -> bool {
    block matches ContentBlock::File(file) && other matches ContentBlock::File(other_file) && (
    file.file.data->Ok_0@ == other_file.file.data->Ok_0@ <==> file.file.mime_type@
        == other_file.file.mime_type@)
}

/// In user messages, files with the same data and different MIME types get different addresses, and
/// so do files with the same MIME type and different data.
pub proof fn law_user_file_addresses_differ<'a>(
    blocks: &'a [ContentBlock],
    messages: Vec<OllamaRequestMessage<'a>>,
    k: int,
    other_blocks: &'a [ContentBlock],
    other_messages: Vec<OllamaRequestMessage<'a>>,
    other_k: int,
)
    requires
        call_ensures(tensorzero_to_ollama_user_message, (blocks,), Ok(messages)),
        call_ensures(tensorzero_to_ollama_user_message, (other_blocks,), Ok(other_messages)),
        0 <= k < shown(blocks@).len(),
        0 <= other_k < shown(other_blocks@).len(),
        shown(blocks@)[k] is File,
        shown(other_blocks@)[other_k] is File,
        messages@.last()->User_0.content@[k].deep_view()
            == other_messages@.last()->User_0.content@[other_k].deep_view(),
    ensures
        same_file_if_half_is(shown(blocks@)[k], shown(other_blocks@)[other_k]),
{
    law_user_content(blocks, Ok(messages));
    law_user_content(other_blocks, Ok(other_messages));
    lemma_addresses_differ(
        messages@.last()->User_0.content@[k],
        shown(blocks@)[k],
        other_messages@.last()->User_0.content@[other_k],
        shown(other_blocks@)[other_k],
        "data: "@,
        "; base64,"@,
    );
}

/// In assistant messages, files with the same data and different MIME types get different
/// addresses, and so do files with the same MIME type and different data.
pub proof fn law_assistant_file_addresses_differ<'a>(
    blocks: &'a [ContentBlock],
    messages: Vec<OllamaRequestMessage<'a>>,
    k: int,
    other_blocks: &'a [ContentBlock],
    other_messages: Vec<OllamaRequestMessage<'a>>,
    other_k: int,
)
    requires
        call_ensures(tensorzero_to_ollama_assistant_message, (blocks,), Ok(messages)),
        call_ensures(tensorzero_to_ollama_assistant_message, (other_blocks,), Ok(other_messages)),
        0 <= k < shown(blocks@).len(),
        0 <= other_k < shown(other_blocks@).len(),
        shown(blocks@)[k] is File,
        shown(other_blocks@)[other_k] is File,
        messages@[0]->Assistant_0.content->0@[k].deep_view()
            == other_messages@[0]->Assistant_0.content->0@[other_k].deep_view(),
    ensures
        same_file_if_half_is(shown(blocks@)[k], shown(other_blocks@)[other_k]),
{
    let is_shown = |block: ContentBlock| block is Text || block is File || block is Unknown;
    lemma_some_kept(blocks@, is_shown);
    lemma_some_kept(other_blocks@, is_shown);
    law_assistant_content(blocks, Ok(messages));
    law_assistant_content(other_blocks, Ok(other_messages));
    lemma_addresses_differ(
        messages@[0]->Assistant_0.content->0@[k],
        shown(blocks@)[k],
        other_messages@[0]->Assistant_0.content->0@[other_k],
        shown(other_blocks@)[other_k],
        "data:"@,
        ";base64,"@,
    );
}

/// A message is converted as its role says: a user's like a user message, an assistant's like an
/// assistant message.
pub proof fn law_role_decides<'a>(
    message: &'a RequestMessage,
    blocks: &'a [ContentBlock],
    messages: Result<Vec<OllamaRequestMessage<'a>>, Error>,
    converted: Result<Vec<OllamaRequestMessage<'a>>, Error>,
)
    requires
        blocks@ == message.content@,
        call_ensures(tensorzero_to_ollama_message, (message,), messages),
        match message.role {
            Role::User => call_ensures(tensorzero_to_ollama_user_message, (blocks,), converted),
            Role::Assistant => call_ensures(
                tensorzero_to_ollama_assistant_message,
                (blocks,),
                converted,
            ),
        },
    ensures
        outcome(messages) == outcome(converted),
{
}

/// The thoughts to warn of are those before the first block that cannot be converted, and all of
/// them if there is no such block, in order and unchanged.
pub proof fn law_discarded_thoughts<'a>(
    message: &'a RequestMessage,
    thoughts: Vec<&'a Thought>,
    until: int,
)
    requires
        call_ensures(discarded_thoughts, (message,), thoughts),
        0 <= until <= message.content@.len(),
        forall|i: int|
            0 <= i < until ==> !is_refused(message.role, #[trigger] message.content@[i]),
        until < message.content@.len() ==> is_refused(message.role, message.content@[until]),
    ensures
        thoughts@.len() == thought_blocks(message.content@.take(until)).len(),
        forall|k: int|
            0 <= k < thoughts@.len() ==> thought_blocks(message.content@.take(until))[k] == (
            ContentBlock::Thought(*#[trigger] thoughts@[k])),
{
    let blocks = message.content@;
    let models = thoughts@.map_values(|thought: &'a Thought| *thought);
    lemma_dropped_thoughts(message.role, blocks, until);
    assert(models == dropped_thoughts(message.role, blocks));
    assert(forall|k: int| 0 <= k < thoughts@.len() ==> models[k] == *#[trigger] thoughts@[k]);
}

proof fn lemma_dropped_thoughts(role: Role, blocks: Seq<ContentBlock>, until: int)
    requires
        0 <= until <= blocks.len(),
        forall|i: int| 0 <= i < until ==> !is_refused(role, #[trigger] blocks[i]),
        until < blocks.len() ==> is_refused(role, blocks[until]),
    ensures
        dropped_thoughts(role, blocks).len() == thought_blocks(blocks.take(until)).len(),
        forall|k: int|
            0 <= k < dropped_thoughts(role, blocks).len() ==> thought_blocks(blocks.take(until))[k]
                == ContentBlock::Thought(#[trigger] dropped_thoughts(role, blocks)[k]),
    decreases blocks.len(),
{
    lemma_refused(role, blocks);
    let is_thought = |block: ContentBlock| block is Thought;
    if until == 0 {
        assert(blocks.take(until) == Seq::<ContentBlock>::empty());
        reveal(Seq::filter);
        assert(blocks.len() == 0 || block_error(role, blocks[0]) is Some);
    } else {
        let rest = blocks.drop_first();
        assert(forall|i: int| 0 <= i < rest.len() ==> #[trigger] rest[i] == blocks[i + 1]);
        lemma_dropped_thoughts(role, rest, until - 1);
        assert(blocks.take(until) == seq![blocks[0]] + rest.take(until - 1));
        Seq::filter_distributes_over_add(seq![blocks[0]], rest.take(until - 1), is_thought);
        assert(seq![blocks[0]].filter(is_thought) == if blocks[0] is Thought {
            seq![blocks[0]]
        } else {
            Seq::empty()
        }) by {
            reveal_with_fuel(Seq::filter, 2);
            assert(seq![blocks[0]].drop_last() == Seq::<ContentBlock>::empty());
        }
    }
}

/// Where tools are available, the prepared choice is the request's own: no tool, auto and required
/// each give the word of that name, and a tool by its name gives the choice of the function with
/// that name.
pub proof fn law_prepared_choice_is_the_requests<'a>(
    request: &'a ModelInferenceRequest,
    tools: (Option<Vec<OllamaTool<'a>>>, Option<OllamaToolChoice<'a>>, Option<bool>),
)
    requires
        call_ensures(prepare_ollama_tools, (request,), tools),
        request.tool_config is Some,
        request.tool_config->0.tools_available@.len() > 0,
    ensures
        tools.1 matches Some(choice) && match request.tool_config->0.tool_choice {
            ToolChoice::NoTool => choice == OllamaToolChoice::String(
                OllamaToolChoiceString::NoTool,
            ),
            ToolChoice::Auto => choice == OllamaToolChoice::String(OllamaToolChoiceString::Auto),
            ToolChoice::Required => choice == OllamaToolChoice::String(
                OllamaToolChoiceString::Required,
            ),
            ToolChoice::Specific(name) => choice matches OllamaToolChoice::Specific(specific)
                && specific.kind is Function && specific.function.name@ == name@,
        },
{
}

/// Requests with different choices of tools are told apart by what is prepared for them.
pub proof fn law_different_choices_stay_different<'a>(
    request: &'a ModelInferenceRequest,
    tools: (Option<Vec<OllamaTool<'a>>>, Option<OllamaToolChoice<'a>>, Option<bool>),
    other: &'a ModelInferenceRequest,
    other_tools: (Option<Vec<OllamaTool<'a>>>, Option<OllamaToolChoice<'a>>, Option<bool>),
)
    requires
        call_ensures(prepare_ollama_tools, (request,), tools),
        call_ensures(prepare_ollama_tools, (other,), other_tools),
        tools.1 is Some,
        tools.1 == other_tools.1,
    ensures
        match (request.tool_config->0.tool_choice, other.tool_config->0.tool_choice) {
            (ToolChoice::NoTool, ToolChoice::NoTool) => true,
            (ToolChoice::Auto, ToolChoice::Auto) => true,
            (ToolChoice::Required, ToolChoice::Required) => true,
            (ToolChoice::Specific(name), ToolChoice::Specific(other_name)) => name@ == other_name@,
            _ => false,
        },
{
    law_prepared_tools(request, tools);
    law_prepared_tools(other, other_tools);
    law_prepared_choice_is_the_requests(request, tools);
    law_prepared_choice_is_the_requests(other, other_tools);
}

/// The tool is told as it is: a function with the same name, description, parameters and
/// strictness.
pub open spec fn tells_tool(told: OllamaTool<'_>, tool: ToolConfig) -> bool {
    &&& told.kind is Function
    &&& told.function.name@ == tool.name@
    &&& told.function.description matches Some(description) && description@ == tool.description@
    &&& *told.function.parameters == tool.parameters
    &&& told.strict == tool.strict
}

/// A request whose tools are not empty has all of them told, in order, each as it is, together with
/// the request's word on parallel calls. Any other request says nothing of tools.
pub proof fn law_prepared_tools<'a>(
    request: &'a ModelInferenceRequest,
    tools: (Option<Vec<OllamaTool<'a>>>, Option<OllamaToolChoice<'a>>, Option<bool>),
)
    requires
        call_ensures(prepare_ollama_tools, (request,), tools),
    ensures
        request.tool_config is None || request.tool_config->0.tools_available@.len() == 0 ==> {
            &&& tools.0 is None
            &&& tools.1 is None
            &&& tools.2 is None
        },
        request.tool_config matches Some(config) ==> config.tools_available@.len() > 0 ==> {
            &&& tools.0 matches Some(told)
            &&& told@.len() == config.tools_available@.len()
            &&& forall|k: int|
                0 <= k < told@.len() ==> tells_tool(
                    #[trigger] told@[k],
                    config.tools_available@[k],
                )
            &&& tools.1 is Some
            &&& tools.2 == config.parallel_tool_calls
        },
{
    if let Some(config) = request.tool_config {
        if config.tools_available@.len() > 0 {
            let told = tools.0->0;
            assert(tools.deep_view().0 == Some(told.deep_view()));
            assert(told.deep_view().len() == told@.len());
            assert(forall|k: int|
                0 <= k < told@.len() ==> told.deep_view()[k] == (#[trigger] told@[k]).deep_view());
        }
    }
}

/// A tool is told as it is.
pub proof fn law_tool_is_told_as_it_is<'a>(tool: &'a ToolConfig, told: OllamaTool<'a>)
    requires
        call_ensures(<OllamaTool<'a> as From<&'a ToolConfig>>::from, (tool,), told),
    ensures
        tells_tool(told, *tool),
{
}

/// A choice of tools is told as it is, and without one no tool is to be called.
pub proof fn law_choice_is_told_as_it_is<'a>(
    tool_choice: &'a ToolChoice,
    told: OllamaToolChoice<'a>,
    without: OllamaToolChoice<'a>,
)
    requires
        call_ensures(<OllamaToolChoice<'a> as From<&'a ToolChoice>>::from, (tool_choice,), told),
        call_ensures(<OllamaToolChoice<'a> as Default>::default, (), without),
    ensures
        match *tool_choice {
            ToolChoice::NoTool => told == OllamaToolChoice::String(OllamaToolChoiceString::NoTool),
            ToolChoice::Auto => told == OllamaToolChoice::String(OllamaToolChoiceString::Auto),
            ToolChoice::Required => told == OllamaToolChoice::String(
                OllamaToolChoiceString::Required,
            ),
            ToolChoice::Specific(name) => told matches OllamaToolChoice::Specific(specific)
                && specific.kind is Function && specific.function.name@ == name@,
        },
        without == OllamaToolChoice::String(OllamaToolChoiceString::NoTool),
{
}

/// A tool call is told as it is: a function call with the same id, name and arguments.
pub proof fn law_call_is_told_as_it_is<'a>(tool_call: &'a ToolCall, told: OllamaRequestToolCall<'a>)
    requires
        call_ensures(<OllamaRequestToolCall<'a> as From<&'a ToolCall>>::from, (tool_call,), told),
    ensures
        told.id@ == tool_call.id@,
        told.kind is Function,
        told.function.name@ == tool_call.name@,
        told.function.arguments@ == tool_call.arguments@,
{
}

/// The data of a file are those that the gateway gave, or its error.
pub proof fn law_data_of_a_file<'a>(file: &'a Base64File, data: Result<&'a str, Error>)
    requires
        call_ensures(Base64File::data, (file,), data),
    ensures
        match file.data {
            Ok(given) => data matches Ok(data) && data@ == given@,
            Err(reported) => data matches Err(error) && error.deep_view() == reported.deep_view(),
        },
{
}

/// Copied messages are like the ones that were copied: as many, in the same order, with the same
/// roles and the same blocks.
pub proof fn law_copied_messages(messages: &[RequestMessage], copy: Vec<RequestMessage>)
    requires
        call_ensures(clone_messages, (messages,), copy),
    ensures
        copy@.len() == messages@.len(),
        forall|i: int|
            0 <= i < copy@.len() ==> (#[trigger] copy@[i]).role == messages@[i].role
                && copy@[i].content@ == messages@[i].content@,
{
    assert(copy.deep_view().len() == copy@.len());
    assert forall|i: int| 0 <= i < copy@.len() implies (#[trigger] copy@[i]).role
        == messages@[i].role && copy@[i].content@ == messages@[i].content@ by {
        assert(copy.deep_view()[i] == copy@[i].deep_view());
        assert(copy.deep_view()[i] == messages@[i].deep_view());
    }
}

} // verus!
