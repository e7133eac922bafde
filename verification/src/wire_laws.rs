//! What holds of everything that is written as JSON.
//!
//! What an object holds is stated by its members, each a name with a value, and by how many of them
//! there are.

use std::borrow::Cow;
use vstd::prelude::*;

use crate::json::{array, object, optional_member, Json, JsonModel};
use crate::message::{OllamaContentBlock, OllamaRequestMessage, OllamaRequestToolCall};
use crate::provider::OllamaProvider;
use crate::request::{Double, OllamaFormat, OllamaOptions, OllamaRequest};
use crate::response::OllamaChatChunk;
use crate::tool::{OllamaTool, OllamaToolChoice, OllamaToolChoiceString, OllamaToolType};
use crate::wire::{
    block_json, content_json, double_json, integer_json, message_json, messages_json, options_json,
    request_json, serialize_optional_text_content_vec, serialize_text_content_vec, strings_json,
    text_json, tool_call_json, tool_calls_json, tool_json, tools_json,
};

verus! {

/// The tree is an object with that many members.
pub open spec fn has_members(json: JsonModel, count: int) -> bool {
    json matches JsonModel::Object(members) && members.len() == count
}

/// The tree is an object in which the name has that value.
pub open spec fn has_value(json: JsonModel, name: Seq<char>, value: JsonModel) -> bool {
    json matches JsonModel::Object(members) && members.contains((name, value))
}

/// One if there is a value, and zero if there is none.
pub open spec fn one_if<A>(value: Option<A>) -> int {
    if value is Some {
        1
    } else {
        0
    }
}

#[verifier::opaque]
spec fn holds(members: Seq<(Seq<char>, JsonModel)>, member: (Seq<char>, JsonModel)) -> bool {
    members.contains(member)
}

/// A member of one part is a member of the whole.
proof fn lemma_parts(
    first: Seq<(Seq<char>, JsonModel)>,
    second: Seq<(Seq<char>, JsonModel)>,
)
    ensures
        forall|member: (Seq<char>, JsonModel)| #[trigger]
            holds(first, member) ==> holds(first + second, member),
        forall|member: (Seq<char>, JsonModel)| #[trigger]
            holds(second, member) ==> holds(first + second, member),
        (first + second).len() == first.len() + second.len(),
{
    reveal(holds);
    let whole = first + second;
    assert forall|member: (Seq<char>, JsonModel)| #[trigger]
        first.contains(member) implies whole.contains(member) by {
        let i = choose|i: int| 0 <= i < first.len() && first[i] == member;
        assert(whole[i] == member);
    }
    assert forall|member: (Seq<char>, JsonModel)| #[trigger]
        second.contains(member) implies whole.contains(member) by {
        let i = choose|i: int| 0 <= i < second.len() && second[i] == member;
        assert(whole[first.len() + i] == member);
    }
}

proof fn lemma_optional(name: Seq<char>, value: Option<JsonModel>)
    ensures
        value matches Some(value) ==> holds(optional_member(name, Some(value)), (name, value)),
        optional_member(name, value).len() == one_if(value),
{
    reveal(holds);
    if let Some(value) = value {
        assert(optional_member(name, Some(value))[0] == (name, value));
    }
}

/// A tree shows what it holds: its value, its items or its members, all of them, in order.
pub proof fn law_tree_shows_everything<'a>(json: Json<'a>)
    ensures
        match json {
            Json::Null => json.deep_view() is Null,
            Json::Bool(value) => json.deep_view() == JsonModel::Bool(value),
            Json::Integer(value) => json.deep_view() == JsonModel::Integer(value as int),
            Json::Double { bits } => json.deep_view() == (JsonModel::Double { bits }),
            Json::Str(text) => json.deep_view() == JsonModel::Str(text@),
            Json::Array(items) => {
                &&& json.deep_view() matches JsonModel::Array(shown)
                &&& shown.len() == items@.len()
                &&& forall|i: int|
                    0 <= i < shown.len() ==> #[trigger] shown[i] == items@[i].deep_view()
            },
            Json::Object(members) => {
                &&& json.deep_view() matches JsonModel::Object(shown)
                &&& shown.len() == members@.len()
                &&& forall|i: int|
                    0 <= i < shown.len() ==> (#[trigger] shown[i]).0 == members@[i].0@
                        && shown[i].1 == members@[i].1.deep_view()
            },
            Json::Raw(value) => json.deep_view() == JsonModel::Raw(*value),
        },
{
}

/// Arrays and objects hold what they are made of.
pub proof fn law_arrays_and_objects<'a>(
    items: Vec<Json<'a>>,
    items_json: Json<'a>,
    members: Vec<(&'a str, Json<'a>)>,
    members_json: Json<'a>,
)
    requires
        call_ensures(array, (items,), items_json),
        call_ensures(object, (members,), members_json),
    ensures
        items_json.deep_view() matches JsonModel::Array(shown) && shown.len() == items@.len()
            && forall|i: int| 0 <= i < shown.len() ==> #[trigger] shown[i] == items@[i].deep_view(),
        members_json.deep_view() matches JsonModel::Object(shown) && shown.len() == members@.len()
            && forall|i: int|
            0 <= i < shown.len() ==> (#[trigger] shown[i]).0 == members@[i].0@ && shown[i].1
                == members@[i].1.deep_view(),
{
    assert(items.deep_view().len() == items@.len());
    assert(forall|i: int|
        0 <= i < items@.len() ==> #[trigger] items.deep_view()[i] == items@[i].deep_view());
    assert(members.deep_view().len() == members@.len());
    assert(forall|i: int|
        0 <= i < members@.len() ==> #[trigger] members.deep_view()[i] == members@[i].deep_view());
}

/// The tree is the block: a text with its type and text, a picture with its type and address, or a
/// value of an unknown shape as it is.
pub open spec fn writes_block(json: JsonModel, block: OllamaContentBlock<'_>) -> bool {
    match block {
        OllamaContentBlock::Text { text } => {
            &&& has_members(json, 2)
            &&& has_value(json, "type"@, JsonModel::Str("text"@))
            &&& has_value(json, "text"@, JsonModel::Str(text@))
        },
        OllamaContentBlock::ImageUrl { image_url } => {
            &&& has_members(json, 2)
            &&& has_value(json, "type"@, JsonModel::Str("image_url"@))
            &&& exists|inner: JsonModel|
                {
                    &&& #[trigger] has_value(json, "image_url"@, inner)
                    &&& has_members(inner, 1)
                    &&& has_value(inner, "url"@, JsonModel::Str(image_url.url@))
                }
        },
        OllamaContentBlock::Unknown { data } => json matches JsonModel::Raw(value) && match data {
            Cow::Borrowed(data) => value == *data,
            Cow::Owned(data) => value == data,
        },
    }
}

proof fn lemma_block(block: OllamaContentBlock<'_>)
    ensures
        writes_block(block_json(block.deep_view()), block),
{
    let json = block_json(block.deep_view());
    match block {
        OllamaContentBlock::Text { text } => {
            assert(json->Object_0[0] == ("type"@, JsonModel::Str("text"@)));
            assert(json->Object_0[1] == ("text"@, JsonModel::Str(text@)));
        },
        OllamaContentBlock::ImageUrl { image_url } => {
            let inner = json->Object_0[1].1;
            assert(json->Object_0[0] == ("type"@, JsonModel::Str("image_url"@)));
            assert(json->Object_0[1] == ("image_url"@, inner));
            assert(inner->Object_0[0] == ("url"@, JsonModel::Str(image_url.url@)));
            assert(has_value(json, "image_url"@, inner));
        },
        OllamaContentBlock::Unknown { .. } => {},
    }
}

/// Every block is written as what it is.
pub proof fn law_written_block<'a>(block: &OllamaContentBlock<'a>, json: Json<'_>)
    requires
        call_ensures(OllamaContentBlock::<'a>::serialize, (block,), json),
    ensures
        writes_block(json.deep_view(), *block),
{
    lemma_block(*block);
}

/// The tree is the content: the text alone if it is a single text, and otherwise an array of the
/// blocks, all of them, in order.
pub open spec fn writes_content(json: JsonModel, content: Seq<OllamaContentBlock<'_>>) -> bool {
    if content.len() == 1 && content[0] is Text {
        json == JsonModel::Str(content[0]->Text_text@)
    } else {
        &&& json matches JsonModel::Array(items)
        &&& items.len() == content.len()
        &&& forall|i: int|
            0 <= i < items.len() ==> writes_block(#[trigger] items[i], content[i])
    }
}

proof fn lemma_content(content: Vec<OllamaContentBlock<'_>>)
    ensures
        writes_content(content_json(content.deep_view()), content@),
{
    let models = content.deep_view();
    assert(models.len() == content@.len());
    assert(forall|i: int|
        0 <= i < content@.len() ==> models[i] == (#[trigger] content@[i]).deep_view());
    if content@.len() == 1 {
        assert(models[0] == content@[0].deep_view());
    }
    if let JsonModel::Array(items) = content_json(models) {
        assert forall|i: int| 0 <= i < items.len() implies writes_block(
            #[trigger] items[i],
            content@[i],
        ) by {
            lemma_block(content@[i]);
            assert(items[i] == block_json(models[i]));
        }
    }
}

/// Content is written as what it is, and as null where there is none.
pub proof fn law_written_content<'a>(
    content: &Vec<OllamaContentBlock<'a>>,
    json: Json<'_>,
    optional: &Option<Vec<OllamaContentBlock<'a>>>,
    optional_json: Json<'_>,
)
    requires
        call_ensures(serialize_text_content_vec, (content,), json),
        call_ensures(serialize_optional_text_content_vec, (optional,), optional_json),
    ensures
        writes_content(json.deep_view(), content@),
        match *optional {
            Some(content) => writes_content(optional_json.deep_view(), content@),
            None => optional_json.deep_view() is Null,
        },
{
    lemma_content(*content);
    if let Some(content) = *optional {
        lemma_content(content);
    }
}

/// The tree is the tool call: its id, the type "function", and the name and the arguments.
pub open spec fn writes_call(json: JsonModel, call: OllamaRequestToolCall<'_>) -> bool {
    &&& has_members(json, 3)
    &&& has_value(json, "id"@, JsonModel::Str(call.id@))
    &&& has_value(json, "type"@, JsonModel::Str("function"@))
    &&& exists|inner: JsonModel|
        {
            &&& #[trigger] has_value(json, "function"@, inner)
            &&& has_members(inner, 2)
            &&& has_value(inner, "name"@, JsonModel::Str(call.function.name@))
            &&& has_value(inner, "arguments"@, JsonModel::Str(call.function.arguments@))
        }
}

proof fn lemma_call(call: OllamaRequestToolCall<'_>)
    ensures
        writes_call(tool_call_json(call.deep_view()), call),
{
    let json = tool_call_json(call.deep_view());
    let inner = json->Object_0[2].1;
    assert(json->Object_0[0] == ("id"@, JsonModel::Str(call.id@)));
    assert(json->Object_0[1] == ("type"@, JsonModel::Str("function"@)));
    assert(json->Object_0[2] == ("function"@, inner));
    assert(inner->Object_0[0] == ("name"@, JsonModel::Str(call.function.name@)));
    assert(inner->Object_0[1] == ("arguments"@, JsonModel::Str(call.function.arguments@)));
    assert(has_value(json, "function"@, inner));
}

/// Every tool call is written as what it is.
pub proof fn law_written_call<'a>(call: &OllamaRequestToolCall<'a>, json: Json<'_>)
    requires
        call_ensures(OllamaRequestToolCall::<'a>::serialize, (call,), json),
    ensures
        writes_call(json.deep_view(), *call),
{
    lemma_call(*call);
}

/// The tree is the tool calls, all of them, in order.
pub open spec fn writes_calls(json: JsonModel, calls: Seq<OllamaRequestToolCall<'_>>) -> bool {
    &&& json matches JsonModel::Array(items)
    &&& items.len() == calls.len()
    &&& forall|i: int| 0 <= i < items.len() ==> writes_call(#[trigger] items[i], calls[i])
}

proof fn lemma_calls(calls: Vec<OllamaRequestToolCall<'_>>)
    ensures
        writes_calls(tool_calls_json(calls.deep_view()), calls@),
{
    let models = calls.deep_view();
    let items = tool_calls_json(models)->Array_0;
    assert(models.len() == calls@.len());
    assert forall|i: int| 0 <= i < items.len() implies writes_call(
        #[trigger] items[i],
        calls@[i],
    ) by {
        lemma_call(calls@[i]);
        assert(models[i] == calls@[i].deep_view());
        assert(items[i] == tool_call_json(models[i]));
    }
}

/// The tree is the message: its role, and what it holds. An assistant message leaves out what it
/// does not have.
pub open spec fn writes_message(json: JsonModel, message: OllamaRequestMessage<'_>) -> bool {
    match message {
        OllamaRequestMessage::System(message) => {
            &&& has_members(json, 2)
            &&& has_value(json, "role"@, JsonModel::Str("system"@))
            &&& has_value(json, "content"@, JsonModel::Str(message.content@))
        },
        OllamaRequestMessage::User(message) => {
            &&& has_members(json, 2)
            &&& has_value(json, "role"@, JsonModel::Str("user"@))
            &&& exists|inner: JsonModel| #[trigger]
                has_value(json, "content"@, inner) && writes_content(inner, message.content@)
        },
        OllamaRequestMessage::Assistant(message) => {
            &&& has_members(json, 1 + one_if(message.content) + one_if(message.tool_calls))
            &&& has_value(json, "role"@, JsonModel::Str("assistant"@))
            &&& message.content matches Some(content) ==> exists|inner: JsonModel| #[trigger]
                has_value(json, "content"@, inner) && writes_content(inner, content@)
            &&& message.tool_calls matches Some(calls) ==> exists|inner: JsonModel| #[trigger]
                has_value(json, "tool_calls"@, inner) && writes_calls(inner, calls@)
        },
        OllamaRequestMessage::Tool(message) => {
            &&& has_members(json, 3)
            &&& has_value(json, "role"@, JsonModel::Str("tool"@))
            &&& has_value(json, "content"@, JsonModel::Str(message.content@))
            &&& has_value(json, "tool_call_id"@, JsonModel::Str(message.tool_call_id@))
        },
    }
}

proof fn lemma_message(message: OllamaRequestMessage<'_>)
    ensures
        writes_message(message_json(message.deep_view()), message),
{
    let json = message_json(message.deep_view());
    let members = json->Object_0;
    match message {
        OllamaRequestMessage::System(message) => {
            assert(members[0] == ("role"@, JsonModel::Str("system"@)));
            assert(members[1] == ("content"@, JsonModel::Str(message.content@)));
        },
        OllamaRequestMessage::User(message) => {
            lemma_content(message.content);
            let inner = content_json(message.content.deep_view());
            assert(members[0] == ("role"@, JsonModel::Str("user"@)));
            assert(members[1] == ("content"@, inner));
            assert(has_value(json, "content"@, inner));
        },
        OllamaRequestMessage::Assistant(message) => {
            assert(members[0] == ("role"@, JsonModel::Str("assistant"@)));
            if let Some(content) = message.content {
                lemma_content(content);
                let inner = content_json(content.deep_view());
                assert(members[1] == ("content"@, inner));
                assert(has_value(json, "content"@, inner));
            }
            if let Some(calls) = message.tool_calls {
                lemma_calls(calls);
                let inner = tool_calls_json(calls.deep_view());
                assert(members[members.len() - 1] == ("tool_calls"@, inner));
                assert(has_value(json, "tool_calls"@, inner));
            }
        },
        OllamaRequestMessage::Tool(message) => {
            assert(members[0] == ("role"@, JsonModel::Str("tool"@)));
            assert(members[1] == ("content"@, JsonModel::Str(message.content@)));
            assert(members[2] == ("tool_call_id"@, JsonModel::Str(message.tool_call_id@)));
        },
    }
}

/// Every message is written as what it is.
pub proof fn law_written_message<'a>(message: &OllamaRequestMessage<'a>, json: Json<'_>)
    requires
        call_ensures(OllamaRequestMessage::<'a>::serialize, (message,), json),
    ensures
        writes_message(json.deep_view(), *message),
{
    lemma_message(*message);
}

/// The tree is the tool: the type "function", whether it is strict, and the function with its name,
/// its description, if it has one, and its parameters.
pub open spec fn writes_tool(json: JsonModel, tool: OllamaTool<'_>) -> bool {
    &&& has_members(json, 3)
    &&& has_value(json, "type"@, JsonModel::Str("function"@))
    &&& has_value(json, "strict"@, JsonModel::Bool(tool.strict))
    &&& exists|inner: JsonModel|
        {
            &&& #[trigger] has_value(json, "function"@, inner)
            &&& has_members(inner, 2 + one_if(tool.function.description))
            &&& has_value(inner, "name"@, JsonModel::Str(tool.function.name@))
            &&& tool.function.description matches Some(description) ==> has_value(
                inner,
                "description"@,
                JsonModel::Str(description@),
            )
            &&& has_value(inner, "parameters"@, JsonModel::Raw(*tool.function.parameters))
        }
}

proof fn lemma_tool(tool: OllamaTool<'_>)
    ensures
        writes_tool(tool_json(tool.deep_view()), tool),
{
    let json = tool_json(tool.deep_view());
    let inner = json->Object_0[1].1;
    let members = inner->Object_0;
    assert(json->Object_0[0] == ("type"@, JsonModel::Str("function"@)));
    assert(json->Object_0[1] == ("function"@, inner));
    assert(json->Object_0[2] == ("strict"@, JsonModel::Bool(tool.strict)));
    assert(members[0] == ("name"@, JsonModel::Str(tool.function.name@)));
    if let Some(description) = tool.function.description {
        assert(members[1] == ("description"@, JsonModel::Str(description@)));
    }
    assert(members[members.len() - 1] == (
        "parameters"@,
        JsonModel::Raw(*tool.function.parameters),
    ));
    assert(has_value(json, "function"@, inner));
}

/// Every tool is written as what it is.
pub proof fn law_written_tool<'a>(tool: &OllamaTool<'a>, json: Json<'_>)
    requires
        call_ensures(OllamaTool::<'a>::serialize, (tool,), json),
    ensures
        writes_tool(json.deep_view(), *tool),
{
    lemma_tool(*tool);
}

/// A choice is written as its word, and the choice of a tool as the type "function" with the name
/// of the tool.
pub proof fn law_written_choice<'a>(choice: &OllamaToolChoice<'a>, json: Json<'_>)
    requires
        call_ensures(OllamaToolChoice::<'a>::serialize, (choice,), json),
    ensures
        match *choice {
            OllamaToolChoice::String(OllamaToolChoiceString::NoTool) => json.deep_view()
                == JsonModel::Str("none"@),
            OllamaToolChoice::String(OllamaToolChoiceString::Auto) => json.deep_view()
                == JsonModel::Str("auto"@),
            OllamaToolChoice::String(OllamaToolChoiceString::Required) => json.deep_view()
                == JsonModel::Str("required"@),
            OllamaToolChoice::Specific(specific) => {
                &&& has_members(json.deep_view(), 2)
                &&& has_value(json.deep_view(), "type"@, JsonModel::Str("function"@))
                &&& exists|inner: JsonModel|
                    {
                        &&& #[trigger] has_value(json.deep_view(), "function"@, inner)
                        &&& has_members(inner, 1)
                        &&& has_value(inner, "name"@, JsonModel::Str(specific.function.name@))
                    }
            },
        },
{
    if let OllamaToolChoice::Specific(specific) = *choice {
        let members = json.deep_view()->Object_0;
        let inner = members[1].1;
        assert(members[0] == ("type"@, JsonModel::Str("function"@)));
        assert(members[1] == ("function"@, inner));
        assert(inner->Object_0[0] == ("name"@, JsonModel::Str(specific.function.name@)));
        assert(has_value(json.deep_view(), "function"@, inner));
    }
}

/// The kind of every tool is written as "function".
pub proof fn law_written_tool_type(kind: &OllamaToolType, json: Json<'_>)
    requires
        call_ensures(OllamaToolType::serialize, (kind,), json),
    ensures
        json.deep_view() == JsonModel::Str("function"@),
{
}

pub open spec fn has_integer(json: JsonModel, name: Seq<char>, value: Option<i32>) -> bool {
    value matches Some(value) ==> has_value(json, name, JsonModel::Integer(value as int))
}

pub open spec fn has_double(json: JsonModel, name: Seq<char>, value: Option<Double>) -> bool {
    value matches Some(value) ==> has_value(json, name, JsonModel::Double { bits: value.bits })
}

/// The tree holds the options that are set, each under its name, and nothing else.
pub open spec fn writes_options(json: JsonModel, options: OllamaOptions) -> bool {
    &&& has_integer(json, "mirostat"@, options.mirostat)
    &&& has_double(json, "mirostat_eta"@, options.mirostat_eta)
    &&& has_double(json, "mirostat_tau"@, options.mirostat_tau)
    &&& has_integer(json, "num_ctx"@, options.num_ctx)
    &&& has_integer(json, "repeat_last_n"@, options.repeat_last_n)
    &&& has_double(json, "repeat_penalty"@, options.repeat_penalty)
    &&& has_double(json, "temperature"@, options.temperature)
    &&& has_integer(json, "seed"@, options.seed)
    &&& options.stop matches Some(stop) ==> exists|texts: Seq<JsonModel>|
        {
            &&& #[trigger] has_value(json, "stop"@, JsonModel::Array(texts))
            &&& texts.len() == stop@.len()
            &&& forall|i: int|
                0 <= i < texts.len() ==> #[trigger] texts[i] == JsonModel::Str(stop@[i]@)
        }
    &&& has_double(json, "tfs_z"@, options.tfs_z)
    &&& has_integer(json, "num_predict"@, options.num_predict)
    &&& has_integer(json, "top_k"@, options.top_k)
    &&& has_double(json, "top_p"@, options.top_p)
    &&& has_double(json, "min_p"@, options.min_p)
    &&& has_members(
        json,
        one_if(options.mirostat) + one_if(options.mirostat_eta) + one_if(options.mirostat_tau)
            + one_if(options.num_ctx) + one_if(options.repeat_last_n) + one_if(
            options.repeat_penalty,
        ) + one_if(options.temperature) + one_if(options.seed) + one_if(options.stop) + one_if(
            options.tfs_z,
        ) + one_if(options.num_predict) + one_if(options.top_k) + one_if(options.top_p) + one_if(
            options.min_p,
        ),
    )
}

#[verifier::opaque]
spec fn integer_member(name: Seq<char>, value: Option<i32>) -> Seq<(Seq<char>, JsonModel)> {
    optional_member(name, integer_json(value))
}

#[verifier::opaque]
spec fn double_member(name: Seq<char>, value: Option<Double>) -> Seq<(Seq<char>, JsonModel)> {
    optional_member(name, double_json(value))
}

#[verifier::opaque]
spec fn strings_member(name: Seq<char>, value: Option<Vec<String>>) -> Seq<
    (Seq<char>, JsonModel),
> {
    optional_member(name, strings_json(value))
}

proof fn lemma_integer(name: Seq<char>, value: Option<i32>)
    ensures
        value matches Some(value) ==> holds(
            integer_member(name, Some(value)),
            (name, JsonModel::Integer(value as int)),
        ),
        integer_member(name, value).len() == one_if(value),
{
    reveal(integer_member);
    lemma_optional(name, integer_json(value));
}

proof fn lemma_double(name: Seq<char>, value: Option<Double>)
    ensures
        value matches Some(value) ==> holds(
            double_member(name, Some(value)),
            (name, JsonModel::Double { bits: value.bits }),
        ),
        double_member(name, value).len() == one_if(value),
{
    reveal(double_member);
    lemma_optional(name, double_json(value));
}

proof fn lemma_strings(name: Seq<char>, value: Option<Vec<String>>)
    ensures
        value matches Some(texts) ==> holds(
            strings_member(name, value),
            (name, JsonModel::Array(texts@.map_values(|text: String| JsonModel::Str(text@)))),
        ),
        strings_member(name, value).len() == one_if(value),
{
    reveal(strings_member);
    lemma_optional(name, strings_json(value));
}

/// The object of these members has each of them.
proof fn lemma_held(json: JsonModel, members: Seq<(Seq<char>, JsonModel)>)
    requires
        json == JsonModel::Object(members),
    ensures
        forall|name: Seq<char>, value: JsonModel| #[trigger]
            holds(members, (name, value)) ==> has_value(json, name, value),
{
    reveal(holds);
}

/// A member of one of the parts is a member of the whole.
proof fn lemma_seven_parts(
    start: Seq<(Seq<char>, JsonModel)>,
    m1: Seq<(Seq<char>, JsonModel)>,
    m2: Seq<(Seq<char>, JsonModel)>,
    m3: Seq<(Seq<char>, JsonModel)>,
    m4: Seq<(Seq<char>, JsonModel)>,
    m5: Seq<(Seq<char>, JsonModel)>,
    m6: Seq<(Seq<char>, JsonModel)>,
    m7: Seq<(Seq<char>, JsonModel)>,
)
    ensures
        ({
            let whole = start + m1 + m2 + m3 + m4 + m5 + m6 + m7;
            &&& whole.len() == start.len() + m1.len() + m2.len() + m3.len() + m4.len() + m5.len()
                + m6.len() + m7.len()
            &&& forall|member: (Seq<char>, JsonModel)| #[trigger]
                holds(start, member) ==> holds(whole, member)
            &&& forall|member: (Seq<char>, JsonModel)| #[trigger]
                holds(m1, member) ==> holds(whole, member)
            &&& forall|member: (Seq<char>, JsonModel)| #[trigger]
                holds(m2, member) ==> holds(whole, member)
            &&& forall|member: (Seq<char>, JsonModel)| #[trigger]
                holds(m3, member) ==> holds(whole, member)
            &&& forall|member: (Seq<char>, JsonModel)| #[trigger]
                holds(m4, member) ==> holds(whole, member)
            &&& forall|member: (Seq<char>, JsonModel)| #[trigger]
                holds(m5, member) ==> holds(whole, member)
            &&& forall|member: (Seq<char>, JsonModel)| #[trigger]
                holds(m6, member) ==> holds(whole, member)
            &&& forall|member: (Seq<char>, JsonModel)| #[trigger]
                holds(m7, member) ==> holds(whole, member)
        }),
{
    lemma_parts(start, m1);
    lemma_parts(start + m1, m2);
    lemma_parts(start + m1 + m2, m3);
    lemma_parts(start + m1 + m2 + m3, m4);
    lemma_parts(start + m1 + m2 + m3 + m4, m5);
    lemma_parts(start + m1 + m2 + m3 + m4 + m5, m6);
    lemma_parts(start + m1 + m2 + m3 + m4 + m5 + m6, m7);
}

proof fn lemma_options(options: OllamaOptions)
    ensures
        writes_options(options_json(options), options),
{
    let m1 = integer_member("mirostat"@, options.mirostat);
    let m2 = double_member("mirostat_eta"@, options.mirostat_eta);
    let m3 = double_member("mirostat_tau"@, options.mirostat_tau);
    let m4 = integer_member("num_ctx"@, options.num_ctx);
    let m5 = integer_member("repeat_last_n"@, options.repeat_last_n);
    let m6 = double_member("repeat_penalty"@, options.repeat_penalty);
    let m7 = double_member("temperature"@, options.temperature);
    let m8 = integer_member("seed"@, options.seed);
    let m9 = strings_member("stop"@, options.stop);
    let m10 = double_member("tfs_z"@, options.tfs_z);
    let m11 = integer_member("num_predict"@, options.num_predict);
    let m12 = integer_member("top_k"@, options.top_k);
    let m13 = double_member("top_p"@, options.top_p);
    let m14 = double_member("min_p"@, options.min_p);
    lemma_integer("mirostat"@, options.mirostat);
    lemma_double("mirostat_eta"@, options.mirostat_eta);
    lemma_double("mirostat_tau"@, options.mirostat_tau);
    lemma_integer("num_ctx"@, options.num_ctx);
    lemma_integer("repeat_last_n"@, options.repeat_last_n);
    lemma_double("repeat_penalty"@, options.repeat_penalty);
    lemma_double("temperature"@, options.temperature);
    lemma_integer("seed"@, options.seed);
    lemma_strings("stop"@, options.stop);
    lemma_double("tfs_z"@, options.tfs_z);
    lemma_integer("num_predict"@, options.num_predict);
    lemma_integer("top_k"@, options.top_k);
    lemma_double("top_p"@, options.top_p);
    lemma_double("min_p"@, options.min_p);
    let json = options_json(options);
    let members = m1 + m2 + m3 + m4 + m5 + m6 + m7 + m8 + m9 + m10 + m11 + m12 + m13 + m14;
    let first = m1 + m2 + m3 + m4 + m5 + m6 + m7;
    lemma_seven_parts(Seq::empty(), m1, m2, m3, m4, m5, m6, m7);
    assert(Seq::<(Seq<char>, JsonModel)>::empty() + m1 =~= m1);
    lemma_seven_parts(first, m8, m9, m10, m11, m12, m13, m14);
    assert(json == JsonModel::Object(members)) by {
        reveal(integer_member);
        reveal(double_member);
        reveal(strings_member);
    }
    lemma_held(json, members);
    if let Some(stop) = options.stop {
        let texts = stop@.map_values(|text: String| JsonModel::Str(text@));
        assert(has_value(json, "stop"@, JsonModel::Array(texts)));
    }
}

/// Every set of options is written as what it is.
pub proof fn law_written_options(options: &OllamaOptions, json: Json<'_>)
    requires
        call_ensures(OllamaOptions::serialize, (options,), json),
    ensures
        writes_options(json.deep_view(), *options),
{
    lemma_options(*options);
}

/// The tree is the request: always the model, the messages, all of them, in order, and whether to
/// stream, and of the rest what is set.
pub open spec fn writes_request(json: JsonModel, request: OllamaRequest<'_>) -> bool {
    &&& has_members(
        json,
        3 + one_if(request.tools) + one_if(request.format) + one_if(request.options) + one_if(
            request.keep_alive,
        ),
    )
    &&& has_value(json, "model"@, JsonModel::Str(request.model@))
    &&& exists|items: Seq<JsonModel>|
        {
            &&& #[trigger] has_value(json, "messages"@, JsonModel::Array(items))
            &&& items.len() == request.messages@.len()
            &&& forall|i: int|
                0 <= i < items.len() ==> writes_message(#[trigger] items[i], request.messages@[i])
        }
    &&& request.tools matches Some(tools) ==> exists|items: Seq<JsonModel>|
        {
            &&& #[trigger] has_value(json, "tools"@, JsonModel::Array(items))
            &&& items.len() == tools@.len()
            &&& forall|i: int|
                0 <= i < items.len() ==> writes_tool(#[trigger] items[i], tools@[i])
        }
    &&& request.format is Some ==> has_value(json, "format"@, JsonModel::Str("json"@))
    &&& request.options matches Some(options) ==> exists|inner: JsonModel| #[trigger]
        has_value(json, "options"@, inner) && writes_options(inner, options)
    &&& has_value(json, "stream"@, JsonModel::Bool(request.stream))
    &&& request.keep_alive matches Some(keep_alive) ==> has_value(
        json,
        "keep_alive"@,
        JsonModel::Str(keep_alive@),
    )
}

/// Every request is written as what it is.
pub proof fn law_written_request<'a>(request: &OllamaRequest<'a>, json: Json<'_>)
    requires
        call_ensures(OllamaRequest::<'a>::serialize, (request,), json),
    ensures
        writes_request(json.deep_view(), *request),
{
    let model = request.deep_view();
    assert(json.deep_view() == request_json(model));
    let head = seq![
        ("model"@, JsonModel::Str(model.model)),
        ("messages"@, messages_json(model.messages)),
    ];
    let tools_value = match model.tools {
        Some(tools) => Some(tools_json(tools)),
        None => None,
    };
    let format_value = match model.format {
        Some(OllamaFormat::Json) => Some(JsonModel::Str("json"@)),
        None => None,
    };
    let options_value = match model.options {
        Some(options) => Some(options_json(options)),
        None => None,
    };
    let m1 = optional_member("tools"@, tools_value);
    let m2 = optional_member("format"@, format_value);
    let m3 = optional_member("options"@, options_value);
    let stream = seq![("stream"@, JsonModel::Bool(model.stream))];
    let m4 = optional_member("keep_alive"@, text_json(model.keep_alive));
    lemma_optional("tools"@, tools_value);
    lemma_optional("format"@, format_value);
    lemma_optional("options"@, options_value);
    lemma_optional("keep_alive"@, text_json(model.keep_alive));
    lemma_parts(head, m1);
    lemma_parts(head + m1, m2);
    lemma_parts(head + m1 + m2, m3);
    lemma_parts(head + m1 + m2 + m3, stream);
    lemma_parts(head + m1 + m2 + m3 + stream, m4);
    lemma_held(json.deep_view(), head + m1 + m2 + m3 + stream + m4);
    assert(head[0] == ("model"@, JsonModel::Str(model.model)));
    assert(head[1] == ("messages"@, messages_json(model.messages)));
    assert(holds(head, head[0]) && holds(head, head[1]) && holds(stream, stream[0])) by {
        reveal(holds);
    }
    assert(stream[0] == ("stream"@, JsonModel::Bool(model.stream)));
    let messages = messages_json(model.messages)->Array_0;
    assert(model.messages.len() == request.messages@.len());
    assert forall|i: int| 0 <= i < messages.len() implies writes_message(
        #[trigger] messages[i],
        request.messages@[i],
    ) by {
        lemma_message(request.messages@[i]);
        assert(model.messages[i] == request.messages@[i].deep_view());
        assert(messages[i] == message_json(model.messages[i]));
    }
    assert(has_value(json.deep_view(), "messages"@, JsonModel::Array(messages)));
    if let Some(tools) = request.tools {
        let models = tools.deep_view();
        let items = tools_json(models)->Array_0;
        assert(models.len() == tools@.len());
        assert forall|i: int| 0 <= i < items.len() implies writes_tool(
            #[trigger] items[i],
            tools@[i],
        ) by {
            lemma_tool(tools@[i]);
            assert(models[i] == tools@[i].deep_view());
            assert(items[i] == tool_json(models[i]));
        }
        assert(has_value(json.deep_view(), "tools"@, JsonModel::Array(items)));
    }
    if let Some(options) = request.options {
        lemma_options(options);
        assert(has_value(json.deep_view(), "options"@, options_json(options)));
    }
}

pub open spec fn has_count(json: JsonModel, name: Seq<char>, count: Option<u32>) -> bool {
    match count {
        Some(count) => has_value(json, name, JsonModel::Integer(count as int)),
        None => has_value(json, name, JsonModel::Null),
    }
}

pub open spec fn has_duration(json: JsonModel, name: Seq<char>, duration: Option<u64>) -> bool {
    match duration {
        Some(duration) => has_value(json, name, JsonModel::Integer(duration as int)),
        None => has_value(json, name, JsonModel::Null),
    }
}

/// Every chunk is written with all that it holds, under Ollama's names, and with null for what it
/// does not report.
pub proof fn law_written_chunk(chunk: &OllamaChatChunk, tree: Json<'_>)
    requires
        call_ensures(OllamaChatChunk::serialize, (chunk,), tree),
    ensures
        ({
            let json = tree.deep_view();
            &&& has_members(json, 10)
            &&& has_value(json, "model"@, JsonModel::Str(chunk.model@))
            &&& has_value(json, "created_at"@, JsonModel::Str(chunk.created_at@))
            &&& exists|inner: JsonModel|
                {
                    &&& #[trigger] has_value(json, "message"@, inner)
                    &&& has_members(inner, 2)
                    &&& has_value(inner, "role"@, JsonModel::Str(chunk.message.role@))
                    &&& has_value(inner, "content"@, JsonModel::Str(chunk.message.content@))
                }
            &&& has_value(json, "done"@, JsonModel::Bool(chunk.done))
            &&& has_count(json, "eval_count"@, chunk.completion_tokens)
            &&& has_count(json, "prompt_eval_count"@, chunk.prompt_tokens)
            &&& has_duration(json, "total_duration"@, chunk.total_duration)
            &&& has_duration(json, "load_duration"@, chunk.load_duration)
            &&& has_duration(json, "prompt_eval_duration"@, chunk.prompt_eval_duration)
            &&& has_duration(json, "eval_duration"@, chunk.eval_duration)
        }),
{
    let json = tree.deep_view();
    let members = json->Object_0;
    assert(forall|i: int| 0 <= i < 10 ==> members.contains(#[trigger] members[i]));
    let inner = members[2].1;
    assert(inner->Object_0[0] == ("role"@, JsonModel::Str(chunk.message.role@)));
    assert(inner->Object_0[1] == ("content"@, JsonModel::Str(chunk.message.content@)));
    assert(members[0].0 == "model"@);
    assert(members[1].0 == "created_at"@);
    assert(members[2].0 == "message"@);
    assert(has_value(json, "message"@, inner));
    assert(members[3].0 == "done"@);
    assert(members[4].0 == "eval_count"@);
    assert(members[5].0 == "prompt_eval_count"@);
    assert(members[6].0 == "total_duration"@);
    assert(members[7].0 == "load_duration"@);
    assert(members[8].0 == "prompt_eval_duration"@);
    assert(members[9].0 == "eval_duration"@);
}

/// A provider is written with the name of its model, and with nothing else.
pub proof fn law_written_provider<K>(provider: &OllamaProvider<K>, name: &str, json: Json<'_>)
    requires
        call_ensures(OllamaProvider::<K>::model_name, (provider,), name),
        call_ensures(OllamaProvider::<K>::serialize, (provider,), json),
    ensures
        has_members(json.deep_view(), 1),
        has_value(json.deep_view(), "model_name"@, JsonModel::Str(name@)),
{
    assert(json.deep_view()->Object_0[0] == ("model_name"@, JsonModel::Str(name@)));
}

} // verus!
