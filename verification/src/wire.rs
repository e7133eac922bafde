//! The wire form: how requests and stream chunks are written as JSON.

use std::borrow::Cow;
use vstd::prelude::*;

use crate::json::{add_member, add_optional_member, array, object, optional_member, Json, JsonModel};
use crate::message::{
    ContentBlockModel, MessageModel, OllamaContentBlock, OllamaRequestMessage,
    OllamaRequestToolCall, ToolCallModel,
};
use crate::provider::OllamaProvider;
use crate::request::{Double, OllamaFormat, OllamaOptions, OllamaRequest, RequestModel};
use crate::response::OllamaChatChunk;
use crate::text::text_of;
use crate::tool::{
    OllamaTool, OllamaToolChoice, OllamaToolChoiceString, OllamaToolType, ToolChoiceModel,
    ToolModel,
};

verus! {

/// A text block and a picture say of what type they are. A block of an unknown shape is written
/// as it is.
pub open spec fn block_json(block: ContentBlockModel) -> JsonModel {
    match block {
        ContentBlockModel::Text { text } => JsonModel::Object(
            seq![("type"@, JsonModel::Str("text"@)), ("text"@, JsonModel::Str(text))],
        ),
        ContentBlockModel::ImageUrl { url } => JsonModel::Object(
            seq![
                ("type"@, JsonModel::Str("image_url"@)),
                ("image_url"@, JsonModel::Object(seq![("url"@, JsonModel::Str(url))])),
            ],
        ),
        ContentBlockModel::Unknown { data } => JsonModel::Raw(data),
    }
}

/// The content of a message. A single text block is written as its text, which providers without
/// content blocks understand too; anything else is written as an array of blocks.
pub open spec fn content_json(content: Seq<ContentBlockModel>) -> JsonModel {
    if content.len() == 1 && content[0] is Text {
        JsonModel::Str(content[0]->text)
    } else {
        JsonModel::Array(content.map_values(|block: ContentBlockModel| block_json(block)))
    }
}

/// The content of a message that may have none.
pub open spec fn optional_content_json(content: Option<Seq<ContentBlockModel>>) -> JsonModel {
    match content {
        Some(content) => content_json(content),
        None => JsonModel::Null,
    }
}

impl<'a> OllamaContentBlock<'a> {
    pub fn serialize<'b>(&'b self) -> (json: Json<'b>)
        ensures
            json.deep_view() == block_json(self.deep_view()),
    {
        match self {
            OllamaContentBlock::Text { text } => {
                let mut members: Vec<(&'b str, Json<'b>)> = Vec::new();
                add_member(&mut members, "type", Json::Str("text"));
                add_member(&mut members, "text", Json::Str(text_of(text)));
                assert(members.deep_view() == block_json(self.deep_view())->Object_0);
                object(members)
            },
            OllamaContentBlock::ImageUrl { image_url } => {
                let mut inner: Vec<(&'b str, Json<'b>)> = Vec::new();
                add_member(&mut inner, "url", Json::Str(image_url.url.as_str()));
                assert(inner.deep_view() == seq![("url"@, JsonModel::Str(image_url.url@))]);
                let mut members: Vec<(&'b str, Json<'b>)> = Vec::new();
                add_member(&mut members, "type", Json::Str("image_url"));
                add_member(&mut members, "image_url", object(inner));
                assert(members.deep_view() == block_json(self.deep_view())->Object_0);
                object(members)
            },
            OllamaContentBlock::Unknown { data } => match data {
                Cow::Borrowed(data) => Json::Raw(data),
                Cow::Owned(data) => Json::Raw(data),
            },
        }
    }
}

/// Writes the content of a message.
pub fn serialize_text_content_vec<'a, 'b>(content: &'b Vec<OllamaContentBlock<'a>>) -> (json: Json<
    'b,
>)
    ensures
        json.deep_view() == content_json(content.deep_view()),
{
    if content.len() == 1 {
        assert(content.deep_view()[0] == content@[0].deep_view());
        if let OllamaContentBlock::Text { text } = &content[0] {
            return Json::Str(text_of(text));
        }
    }
    let mut items: Vec<Json<'b>> = Vec::new();
    for i in 0..content.len()
        invariant
            items@.len() == i,
            forall|j: int|
                0 <= j < i ==> (#[trigger] items@[j]).deep_view() == block_json(
                    content@[j].deep_view(),
                ),
    {
        items.push(content[i].serialize());
    }
    assert(items.deep_view() == content.deep_view().map_values(
        |block: ContentBlockModel| block_json(block),
    ));
    array(items)
}

/// Writes the content of a message that may have none.
pub fn serialize_optional_text_content_vec<'a, 'b>(
    content: &'b Option<Vec<OllamaContentBlock<'a>>>,
) -> (json: Json<'b>)
    ensures
        json.deep_view() == optional_content_json(content.deep_view()),
{
    match content {
        Some(content) => serialize_text_content_vec(content),
        None => Json::Null,
    }
}

/// A tool is written with the type "function".
pub open spec fn tool_type_json(kind: OllamaToolType) -> JsonModel {
    match kind {
        OllamaToolType::Function => JsonModel::Str("function"@),
    }
}

impl OllamaToolType {
    pub fn serialize<'b>(&self) -> (json: Json<'b>)
        ensures
            json.deep_view() == tool_type_json(*self),
    {
        match self {
            OllamaToolType::Function => Json::Str("function"),
        }
    }
}

pub open spec fn tool_call_json(call: ToolCallModel) -> JsonModel {
    JsonModel::Object(
        seq![
            ("id"@, JsonModel::Str(call.id)),
            ("type"@, tool_type_json(call.kind)),
            (
                "function"@,
                JsonModel::Object(
                    seq![
                        ("name"@, JsonModel::Str(call.name)),
                        ("arguments"@, JsonModel::Str(call.arguments)),
                    ],
                ),
            ),
        ],
    )
}

impl<'a> OllamaRequestToolCall<'a> {
    pub fn serialize<'b>(&'b self) -> (json: Json<'b>)
        ensures
            json.deep_view() == tool_call_json(self.deep_view()),
    {
        let mut function: Vec<(&'b str, Json<'b>)> = Vec::new();
        add_member(&mut function, "name", Json::Str(self.function.name));
        add_member(&mut function, "arguments", Json::Str(self.function.arguments));
        assert(function.deep_view() == seq![
            ("name"@, JsonModel::Str(self.function.name@)),
            ("arguments"@, JsonModel::Str(self.function.arguments@)),
        ]);
        let mut members: Vec<(&'b str, Json<'b>)> = Vec::new();
        add_member(&mut members, "id", Json::Str(self.id));
        add_member(&mut members, "type", self.kind.serialize());
        add_member(&mut members, "function", object(function));
        assert(members.deep_view() == tool_call_json(self.deep_view())->Object_0);
        object(members)
    }
}

pub open spec fn tool_calls_json(calls: Seq<ToolCallModel>) -> JsonModel {
    JsonModel::Array(calls.map_values(|call: ToolCallModel| tool_call_json(call)))
}

fn serialize_tool_calls<'a, 'b>(calls: &'b Vec<OllamaRequestToolCall<'a>>) -> (json: Json<'b>)
    ensures
        json.deep_view() == tool_calls_json(calls.deep_view()),
{
    let mut items: Vec<Json<'b>> = Vec::new();
    for i in 0..calls.len()
        invariant
            items@.len() == i,
            forall|j: int|
                0 <= j < i ==> (#[trigger] items@[j]).deep_view() == tool_call_json(
                    calls@[j].deep_view(),
                ),
    {
        items.push(calls[i].serialize());
    }
    assert(items.deep_view() == calls.deep_view().map_values(
        |call: ToolCallModel| tool_call_json(call),
    ));
    array(items)
}

/// A message says first whose it is. An assistant message leaves out what it does not have.
pub open spec fn message_json(message: MessageModel) -> JsonModel {
    match message {
        MessageModel::System { content } => JsonModel::Object(
            seq![("role"@, JsonModel::Str("system"@)), ("content"@, JsonModel::Str(content))],
        ),
        MessageModel::User { content } => JsonModel::Object(
            seq![("role"@, JsonModel::Str("user"@)), ("content"@, content_json(content))],
        ),
        MessageModel::Assistant { content, tool_calls } => JsonModel::Object(
            seq![("role"@, JsonModel::Str("assistant"@))] + optional_member(
                "content"@,
                match content {
                    Some(_) => Some(optional_content_json(content)),
                    None => None,
                },
            ) + optional_member(
                "tool_calls"@,
                match tool_calls {
                    Some(calls) => Some(tool_calls_json(calls)),
                    None => None,
                },
            ),
        ),
        MessageModel::Tool { content, tool_call_id } => JsonModel::Object(
            seq![
                ("role"@, JsonModel::Str("tool"@)),
                ("content"@, JsonModel::Str(content)),
                ("tool_call_id"@, JsonModel::Str(tool_call_id)),
            ],
        ),
    }
}

impl<'a> OllamaRequestMessage<'a> {
    pub fn serialize<'b>(&'b self) -> (json: Json<'b>)
        ensures
            json.deep_view() == message_json(self.deep_view()),
    {
        let mut members: Vec<(&'b str, Json<'b>)> = Vec::new();
        match self {
            OllamaRequestMessage::System(message) => {
                add_member(&mut members, "role", Json::Str("system"));
                add_member(&mut members, "content", Json::Str(text_of(&message.content)));
            },
            OllamaRequestMessage::User(message) => {
                add_member(&mut members, "role", Json::Str("user"));
                add_member(&mut members, "content", serialize_text_content_vec(&message.content));
            },
            OllamaRequestMessage::Assistant(message) => {
                add_member(&mut members, "role", Json::Str("assistant"));
                let content: Option<Json<'b>> = if message.content.is_some() {
                    Some(serialize_optional_text_content_vec(&message.content))
                } else {
                    None
                };
                add_optional_member(&mut members, "content", content);
                let tool_calls: Option<Json<'b>> = match &message.tool_calls {
                    Some(calls) => Some(serialize_tool_calls(calls)),
                    None => None,
                };
                add_optional_member(&mut members, "tool_calls", tool_calls);
            },
            OllamaRequestMessage::Tool(message) => {
                add_member(&mut members, "role", Json::Str("tool"));
                add_member(&mut members, "content", Json::Str(message.content));
                add_member(&mut members, "tool_call_id", Json::Str(message.tool_call_id));
            },
        }
        assert(members.deep_view() == message_json(self.deep_view())->Object_0);
        object(members)
    }
}

pub open spec fn messages_json(messages: Seq<MessageModel>) -> JsonModel {
    JsonModel::Array(messages.map_values(|message: MessageModel| message_json(message)))
}

fn serialize_messages<'a, 'b>(messages: &'b Vec<OllamaRequestMessage<'a>>) -> (json: Json<'b>)
    ensures
        json.deep_view() == messages_json(messages.deep_view()),
{
    let mut items: Vec<Json<'b>> = Vec::new();
    for i in 0..messages.len()
        invariant
            items@.len() == i,
            forall|j: int|
                0 <= j < i ==> (#[trigger] items@[j]).deep_view() == message_json(
                    messages@[j].deep_view(),
                ),
    {
        items.push(messages[i].serialize());
    }
    assert(items.deep_view() == messages.deep_view().map_values(
        |message: MessageModel| message_json(message),
    ));
    array(items)
}

pub open spec fn tool_json(tool: ToolModel) -> JsonModel {
    JsonModel::Object(
        seq![
            ("type"@, tool_type_json(tool.kind)),
            (
                "function"@,
                JsonModel::Object(
                    seq![("name"@, JsonModel::Str(tool.name))] + optional_member(
                        "description"@,
                        text_json(tool.description),
                    ) + seq![("parameters"@, JsonModel::Raw(tool.parameters))],
                ),
            ),
            ("strict"@, JsonModel::Bool(tool.strict)),
        ],
    )
}

impl<'a> OllamaTool<'a> {
    pub fn serialize<'b>(&'b self) -> (json: Json<'b>)
        ensures
            json.deep_view() == tool_json(self.deep_view()),
    {
        let mut function: Vec<(&'b str, Json<'b>)> = Vec::new();
        add_member(&mut function, "name", Json::Str(self.function.name));
        add_optional_member(
            &mut function,
            "description",
            optional_text(self.function.description),
        );
        add_member(&mut function, "parameters", Json::Raw(self.function.parameters));
        assert(function.deep_view() == seq![("name"@, JsonModel::Str(self.function.name@))]
            + optional_member("description"@, text_json(self.function.description.deep_view()))
            + seq![("parameters"@, JsonModel::Raw(*self.function.parameters))]);
        let mut members: Vec<(&'b str, Json<'b>)> = Vec::new();
        add_member(&mut members, "type", self.kind.serialize());
        add_member(&mut members, "function", object(function));
        add_member(&mut members, "strict", Json::Bool(self.strict));
        assert(members.deep_view() == tool_json(self.deep_view())->Object_0);
        object(members)
    }
}

pub open spec fn tools_json(tools: Seq<ToolModel>) -> JsonModel {
    JsonModel::Array(tools.map_values(|tool: ToolModel| tool_json(tool)))
}

fn serialize_tools<'a, 'b>(tools: &'b Vec<OllamaTool<'a>>) -> (json: Json<'b>)
    ensures
        json.deep_view() == tools_json(tools.deep_view()),
{
    let mut items: Vec<Json<'b>> = Vec::new();
    for i in 0..tools.len()
        invariant
            items@.len() == i,
            forall|j: int|
                0 <= j < i ==> (#[trigger] items@[j]).deep_view() == tool_json(
                    tools@[j].deep_view(),
                ),
    {
        items.push(tools[i].serialize());
    }
    assert(items.deep_view() == tools.deep_view().map_values(|tool: ToolModel| tool_json(tool)));
    array(items)
}

/// A choice without a tool is written as one word, a choice of a tool as that tool.
pub open spec fn tool_choice_json(choice: ToolChoiceModel) -> JsonModel {
    match choice {
        ToolChoiceModel::General { choice } => JsonModel::Str(
            match choice {
                OllamaToolChoiceString::NoTool => "none"@,
                OllamaToolChoiceString::Auto => "auto"@,
                OllamaToolChoiceString::Required => "required"@,
            },
        ),
        ToolChoiceModel::Specific { kind, name } => JsonModel::Object(
            seq![
                ("type"@, tool_type_json(kind)),
                ("function"@, JsonModel::Object(seq![("name"@, JsonModel::Str(name))])),
            ],
        ),
    }
}

impl<'a> OllamaToolChoice<'a> {
    pub fn serialize<'b>(&'b self) -> (json: Json<'b>)
        ensures
            json.deep_view() == tool_choice_json(self.deep_view()),
    {
        match self {
            OllamaToolChoice::String(choice) => match choice {
                OllamaToolChoiceString::NoTool => Json::Str("none"),
                OllamaToolChoiceString::Auto => Json::Str("auto"),
                OllamaToolChoiceString::Required => Json::Str("required"),
            },
            OllamaToolChoice::Specific(choice) => {
                let mut function: Vec<(&'b str, Json<'b>)> = Vec::new();
                add_member(&mut function, "name", Json::Str(choice.function.name));
                assert(function.deep_view() == seq![
                    ("name"@, JsonModel::Str(choice.function.name@)),
                ]);
                let mut members: Vec<(&'b str, Json<'b>)> = Vec::new();
                add_member(&mut members, "type", choice.kind.serialize());
                add_member(&mut members, "function", object(function));
                assert(members.deep_view() == tool_choice_json(self.deep_view())->Object_0);
                object(members)
            },
        }
    }
}

pub open spec fn text_json(text: Option<Seq<char>>) -> Option<JsonModel> {
    match text {
        Some(text) => Some(JsonModel::Str(text)),
        None => None,
    }
}

fn optional_text<'b>(text: Option<&'b str>) -> (json: Option<Json<'b>>)
    ensures
        json.deep_view() == text_json(text.deep_view()),
{
    match text {
        Some(text) => Some(Json::Str(text)),
        None => None,
    }
}

pub open spec fn integer_json(value: Option<i32>) -> Option<JsonModel> {
    match value {
        Some(value) => Some(JsonModel::Integer(value as int)),
        None => None,
    }
}

fn optional_integer<'b>(value: Option<i32>) -> (json: Option<Json<'b>>)
    ensures
        json.deep_view() == integer_json(value),
{
    match value {
        Some(value) => Some(Json::Integer(value as i128)),
        None => None,
    }
}

pub open spec fn double_json(value: Option<Double>) -> Option<JsonModel> {
    match value {
        Some(value) => Some(JsonModel::Double { bits: value.bits }),
        None => None,
    }
}

fn optional_double<'b>(value: Option<Double>) -> (json: Option<Json<'b>>)
    ensures
        json.deep_view() == double_json(value),
{
    match value {
        Some(value) => Some(Json::Double { bits: value.bits }),
        None => None,
    }
}

pub open spec fn strings_json(texts: Option<Vec<String>>) -> Option<JsonModel> {
    match texts {
        Some(texts) => Some(
            JsonModel::Array(texts@.map_values(|text: String| JsonModel::Str(text@))),
        ),
        None => None,
    }
}

fn optional_strings<'b>(texts: &'b Option<Vec<String>>) -> (json: Option<Json<'b>>)
    ensures
        json.deep_view() == strings_json(*texts),
{
    match texts {
        Some(texts) => {
            let mut items: Vec<Json<'b>> = Vec::new();
            for i in 0..texts.len()
                invariant
                    items@.len() == i,
                    forall|j: int|
                        0 <= j < i ==> (#[trigger] items@[j]).deep_view() == JsonModel::Str(
                            texts@[j]@,
                        ),
            {
                items.push(Json::Str(texts[i].as_str()));
            }
            assert(items.deep_view() == texts@.map_values(|text: String| JsonModel::Str(text@)));
            Some(array(items))
        },
        None => None,
    }
}

/// The options that are set, each under its name.
pub open spec fn options_json(options: OllamaOptions) -> JsonModel {
    JsonModel::Object(
        optional_member("mirostat"@, integer_json(options.mirostat))
            + optional_member("mirostat_eta"@, double_json(options.mirostat_eta))
            + optional_member("mirostat_tau"@, double_json(options.mirostat_tau))
            + optional_member("num_ctx"@, integer_json(options.num_ctx))
            + optional_member("repeat_last_n"@, integer_json(options.repeat_last_n))
            + optional_member("repeat_penalty"@, double_json(options.repeat_penalty))
            + optional_member("temperature"@, double_json(options.temperature))
            + optional_member("seed"@, integer_json(options.seed))
            + optional_member("stop"@, strings_json(options.stop))
            + optional_member("tfs_z"@, double_json(options.tfs_z))
            + optional_member("num_predict"@, integer_json(options.num_predict))
            + optional_member("top_k"@, integer_json(options.top_k))
            + optional_member("top_p"@, double_json(options.top_p))
            + optional_member("min_p"@, double_json(options.min_p)),
    )
}

impl OllamaOptions {
    pub fn serialize<'b>(&'b self) -> (json: Json<'b>)
        ensures
            json.deep_view() == options_json(*self),
    {
        let mut members: Vec<(&'b str, Json<'b>)> = Vec::new();
        add_optional_member(&mut members, "mirostat", optional_integer(self.mirostat));
        add_optional_member(&mut members, "mirostat_eta", optional_double(self.mirostat_eta));
        add_optional_member(&mut members, "mirostat_tau", optional_double(self.mirostat_tau));
        add_optional_member(&mut members, "num_ctx", optional_integer(self.num_ctx));
        add_optional_member(&mut members, "repeat_last_n", optional_integer(self.repeat_last_n));
        add_optional_member(&mut members, "repeat_penalty", optional_double(self.repeat_penalty));
        add_optional_member(&mut members, "temperature", optional_double(self.temperature));
        add_optional_member(&mut members, "seed", optional_integer(self.seed));
        add_optional_member(&mut members, "stop", optional_strings(&self.stop));
        add_optional_member(&mut members, "tfs_z", optional_double(self.tfs_z));
        add_optional_member(&mut members, "num_predict", optional_integer(self.num_predict));
        add_optional_member(&mut members, "top_k", optional_integer(self.top_k));
        add_optional_member(&mut members, "top_p", optional_double(self.top_p));
        add_optional_member(&mut members, "min_p", optional_double(self.min_p));
        assert(members.deep_view() == options_json(*self)->Object_0);
        object(members)
    }
}

pub open spec fn format_json(format: OllamaFormat) -> JsonModel {
    match format {
        OllamaFormat::Json => JsonModel::Str("json"@),
    }
}

/// The request body. The model, the messages and the streaming flag are always there; the other
/// parameters only where they are set.
pub open spec fn request_json(request: RequestModel) -> JsonModel {
    JsonModel::Object(
        seq![
            ("model"@, JsonModel::Str(request.model)),
            ("messages"@, messages_json(request.messages)),
        ] + optional_member(
            "tools"@,
            match request.tools {
                Some(tools) => Some(tools_json(tools)),
                None => None,
            },
        ) + optional_member(
            "format"@,
            match request.format {
                Some(format) => Some(format_json(format)),
                None => None,
            },
        ) + optional_member(
            "options"@,
            match request.options {
                Some(options) => Some(options_json(options)),
                None => None,
            },
        ) + seq![("stream"@, JsonModel::Bool(request.stream))] + optional_member(
            "keep_alive"@,
            text_json(request.keep_alive),
        ),
    )
}

impl<'a> OllamaRequest<'a> {
    /// The body of the request.
    pub fn serialize<'b>(&'b self) -> (json: Json<'b>)
        ensures
            json.deep_view() == request_json(self.deep_view()),
    {
        let mut members: Vec<(&'b str, Json<'b>)> = Vec::new();
        add_member(&mut members, "model", Json::Str(self.model));
        add_member(&mut members, "messages", serialize_messages(&self.messages));
        let tools: Option<Json<'b>> = match &self.tools {
            Some(tools) => Some(serialize_tools(tools)),
            None => None,
        };
        add_optional_member(&mut members, "tools", tools);
        let format: Option<Json<'b>> = match self.format {
            Some(OllamaFormat::Json) => Some(Json::Str("json")),
            None => None,
        };
        add_optional_member(&mut members, "format", format);
        let options: Option<Json<'b>> = match &self.options {
            Some(options) => Some(options.serialize()),
            None => None,
        };
        add_optional_member(&mut members, "options", options);
        add_member(&mut members, "stream", Json::Bool(self.stream));
        let keep_alive: Option<Json<'b>> = match &self.keep_alive {
            Some(keep_alive) => Some(Json::Str(keep_alive.as_str())),
            None => None,
        };
        add_optional_member(&mut members, "keep_alive", keep_alive);
        assert(members.deep_view() == request_json(self.deep_view())->Object_0);
        object(members)
    }
}

pub open spec fn count_json(count: Option<u32>) -> JsonModel {
    match count {
        Some(count) => JsonModel::Integer(count as int),
        None => JsonModel::Null,
    }
}

fn nullable_count<'b>(count: Option<u32>) -> (json: Json<'b>)
    ensures
        json.deep_view() == count_json(count),
{
    match count {
        Some(count) => Json::Integer(count as i128),
        None => Json::Null,
    }
}

pub open spec fn duration_json(duration: Option<u64>) -> JsonModel {
    match duration {
        Some(duration) => JsonModel::Integer(duration as int),
        None => JsonModel::Null,
    }
}

fn nullable_duration<'b>(duration: Option<u64>) -> (json: Json<'b>)
    ensures
        json.deep_view() == duration_json(duration),
{
    match duration {
        Some(duration) => Json::Integer(duration as i128),
        None => Json::Null,
    }
}

/// A stream chunk, under Ollama's own names. What is not reported is written as null.
pub open spec fn chunk_json(chunk: OllamaChatChunk) -> JsonModel {
    JsonModel::Object(
        seq![
            ("model"@, JsonModel::Str(chunk.model@)),
            ("created_at"@, JsonModel::Str(chunk.created_at@)),
            (
                "message"@,
                JsonModel::Object(
                    seq![
                        ("role"@, JsonModel::Str(chunk.message.role@)),
                        ("content"@, JsonModel::Str(chunk.message.content@)),
                    ],
                ),
            ),
            ("done"@, JsonModel::Bool(chunk.done)),
            ("eval_count"@, count_json(chunk.completion_tokens)),
            ("prompt_eval_count"@, count_json(chunk.prompt_tokens)),
            ("total_duration"@, duration_json(chunk.total_duration)),
            ("load_duration"@, duration_json(chunk.load_duration)),
            ("prompt_eval_duration"@, duration_json(chunk.prompt_eval_duration)),
            ("eval_duration"@, duration_json(chunk.eval_duration)),
        ],
    )
}

impl OllamaChatChunk {
    pub fn serialize<'b>(&'b self) -> (json: Json<'b>)
        ensures
            json.deep_view() == chunk_json(*self),
    {
        let mut message: Vec<(&'b str, Json<'b>)> = Vec::new();
        add_member(&mut message, "role", Json::Str(self.message.role.as_str()));
        add_member(&mut message, "content", Json::Str(self.message.content.as_str()));
        assert(message.deep_view() == seq![
            ("role"@, JsonModel::Str(self.message.role@)),
            ("content"@, JsonModel::Str(self.message.content@)),
        ]);
        let mut members: Vec<(&'b str, Json<'b>)> = Vec::new();
        add_member(&mut members, "model", Json::Str(self.model.as_str()));
        add_member(&mut members, "created_at", Json::Str(self.created_at.as_str()));
        add_member(&mut members, "message", object(message));
        add_member(&mut members, "done", Json::Bool(self.done));
        add_member(&mut members, "eval_count", nullable_count(self.completion_tokens));
        add_member(&mut members, "prompt_eval_count", nullable_count(self.prompt_tokens));
        add_member(&mut members, "total_duration", nullable_duration(self.total_duration));
        add_member(&mut members, "load_duration", nullable_duration(self.load_duration));
        add_member(
            &mut members,
            "prompt_eval_duration",
            nullable_duration(self.prompt_eval_duration),
        );
        add_member(&mut members, "eval_duration", nullable_duration(self.eval_duration));
        assert(members.deep_view() == chunk_json(*self)->Object_0);
        object(members)
    }
}

/// A provider is written with the name of its model alone. Credentials are never written.
pub open spec fn provider_json<K>(provider: OllamaProvider<K>) -> JsonModel {
    JsonModel::Object(seq![("model_name"@, JsonModel::Str(provider.model()))])
}

impl<K> OllamaProvider<K> {
    pub fn serialize<'b>(&'b self) -> (json: Json<'b>)
        ensures
            json.deep_view() == provider_json(*self),
    {
        let mut members: Vec<(&'b str, Json<'b>)> = Vec::new();
        add_member(&mut members, "model_name", Json::Str(self.model_name()));
        assert(members.deep_view() == provider_json(*self)->Object_0);
        object(members)
    }
}

} // verus!
