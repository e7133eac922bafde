//! Messages: from the gateway's conversation to Ollama's.

use serde_json::Value;
use std::borrow::Cow;
use vstd::prelude::*;
use vstd::utf8::is_ascii_chars;

use crate::error::{outcome, Error, ErrorDetails, ErrorModel};
use crate::inference::{
    ContentBlock, ModelInferenceRequest, ModelInferenceRequestJsonMode, RequestMessage,
    RequestMessageModel, Role, Thought, ToolCall,
};
use crate::text::{
    ascii_lowercase, find_lowered_json, has_substring, join, lowercase_contains, lowercase_of,
    matches_at, text_of,
};
use crate::tool::OllamaToolType;

verus! {

/// Where a picture is to be had.
#[derive(Debug, PartialEq)]
pub struct OllamaImageUrl {
    pub url: String,
}

impl Clone for OllamaImageUrl {
    fn clone(&self) -> (copy: OllamaImageUrl)
        ensures
            copy == *self,
    {
        OllamaImageUrl { url: self.url.clone() }
    }
}

/// One block of a message to Ollama.
#[derive(Debug, PartialEq)]
pub enum OllamaContentBlock<'a> {
    Text { text: Cow<'a, str> },
    ImageUrl { image_url: OllamaImageUrl },
    Unknown { data: Cow<'a, Value> },
}

/// `OllamaContentBlock` with its texts as sequences of characters.
pub enum ContentBlockModel {
    Text { text: Seq<char> },
    ImageUrl { url: Seq<char> },
    Unknown { data: Value },
}

impl<'a> DeepView for OllamaContentBlock<'a> {
    type V = ContentBlockModel;

    open spec fn deep_view(&self) -> ContentBlockModel {
        match self {
            OllamaContentBlock::Text { text } => ContentBlockModel::Text { text: text@ },
            OllamaContentBlock::ImageUrl { image_url } => ContentBlockModel::ImageUrl {
                url: image_url.url@,
            },
            OllamaContentBlock::Unknown { data } => match data {
                Cow::Borrowed(data) => ContentBlockModel::Unknown { data: **data },
                Cow::Owned(data) => ContentBlockModel::Unknown { data: *data },
            },
        }
    }
}

impl<'a> Clone for OllamaContentBlock<'a> {
    fn clone(&self) -> (copy: OllamaContentBlock<'a>)
        ensures
            copy.deep_view() == self.deep_view(),
    {
        match self {
            OllamaContentBlock::Text { text } => OllamaContentBlock::Text {
                text: match text {
                    Cow::Borrowed(text) => Cow::Borrowed(*text),
                    Cow::Owned(text) => Cow::Owned(text.clone()),
                },
            },
            OllamaContentBlock::ImageUrl { image_url } => OllamaContentBlock::ImageUrl {
                image_url: image_url.clone(),
            },
            OllamaContentBlock::Unknown { data } => OllamaContentBlock::Unknown {
                data: match data {
                    Cow::Borrowed(data) => Cow::Borrowed(*data),
                    Cow::Owned(data) => Cow::Owned(data.clone()),
                },
            },
        }
    }
}

/// The function that a tool call names, with its arguments.
#[derive(Clone, Copy, Debug, PartialEq)]
pub struct OllamaRequestFunctionCall<'a> {
    pub name: &'a str,
    pub arguments: &'a str,
}

/// A tool call that the assistant made earlier.
#[derive(Clone, Copy, Debug, PartialEq)]
pub struct OllamaRequestToolCall<'a> {
    pub id: &'a str,
    pub kind: OllamaToolType,
    pub function: OllamaRequestFunctionCall<'a>,
}

/// `OllamaRequestToolCall` with its texts as sequences of characters.
pub struct ToolCallModel {
    pub id: Seq<char>,
    pub kind: OllamaToolType,
    pub name: Seq<char>,
    pub arguments: Seq<char>,
}

impl<'a> DeepView for OllamaRequestToolCall<'a> {
    type V = ToolCallModel;

    open spec fn deep_view(&self) -> ToolCallModel {
        ToolCallModel {
            id: self.id@,
            kind: self.kind,
            name: self.function.name@,
            arguments: self.function.arguments@,
        }
    }
}

/// The tool call as Ollama is told of it: a function call with the same id, name and arguments.
pub open spec fn tool_call_model(tool_call: ToolCall) -> ToolCallModel {
    ToolCallModel {
        id: tool_call.id@,
        kind: OllamaToolType::Function,
        name: tool_call.name@,
        arguments: tool_call.arguments@,
    }
}

impl<'a> From<&'a ToolCall> for OllamaRequestToolCall<'a> {
    fn from(tool_call: &'a ToolCall) -> (call: Self)
        ensures
            call.deep_view() == tool_call_model(*tool_call),
    {
        OllamaRequestToolCall {
            id: tool_call.id.as_str(),
            kind: OllamaToolType::Function,
            function: OllamaRequestFunctionCall {
                name: tool_call.name.as_str(),
                arguments: tool_call.arguments.as_str(),
            },
        }
    }
}

// `from` states what it returns itself, over models.
impl<'a> vstd::std_specs::convert::FromSpecImpl<&'a ToolCall> for OllamaRequestToolCall<'a> {
    open spec fn obeys_from_spec() -> bool {
        false
    }

    open spec fn from_spec(tool_call: &'a ToolCall) -> Self {
        arbitrary()
    }
}

#[derive(Debug, PartialEq)]
pub struct OllamaSystemRequestMessage<'a> {
    pub content: Cow<'a, str>,
}

impl<'a> Clone for OllamaSystemRequestMessage<'a> {
    fn clone(&self) -> (copy: OllamaSystemRequestMessage<'a>)
        ensures
            copy.content@ == self.content@,
    {
        OllamaSystemRequestMessage {
            content: match &self.content {
                Cow::Borrowed(content) => Cow::Borrowed(*content),
                Cow::Owned(content) => Cow::Owned(content.clone()),
            },
        }
    }
}

fn clone_blocks<'a>(blocks: &Vec<OllamaContentBlock<'a>>) -> (copy: Vec<OllamaContentBlock<'a>>)
    ensures
        copy.deep_view() == blocks.deep_view(),
{
    let mut copy: Vec<OllamaContentBlock<'a>> = Vec::new();
    for i in 0..blocks.len()
        invariant
            copy@.len() == i,
            forall|j: int|
                0 <= j < i ==> (#[trigger] copy@[j]).deep_view() == blocks@[j].deep_view(),
    {
        copy.push(blocks[i].clone());
    }
    copy
}

#[derive(Debug, PartialEq)]
pub struct OllamaUserRequestMessage<'a> {
    pub content: Vec<OllamaContentBlock<'a>>,
}

impl<'a> Clone for OllamaUserRequestMessage<'a> {
    fn clone(&self) -> (copy: OllamaUserRequestMessage<'a>)
        ensures
            copy.content.deep_view() == self.content.deep_view(),
    {
        OllamaUserRequestMessage { content: clone_blocks(&self.content) }
    }
}

#[derive(Debug, PartialEq)]
pub struct OllamaAssistantRequestMessage<'a> {
    pub content: Option<Vec<OllamaContentBlock<'a>>>,
    pub tool_calls: Option<Vec<OllamaRequestToolCall<'a>>>,
}

impl<'a> Clone for OllamaAssistantRequestMessage<'a> {
    fn clone(&self) -> (copy: OllamaAssistantRequestMessage<'a>)
        ensures
            copy.content.deep_view() == self.content.deep_view(),
            copy.tool_calls.deep_view() == self.tool_calls.deep_view(),
    {
        let content: Option<Vec<OllamaContentBlock<'a>>> = match &self.content {
            Some(content) => Some(clone_blocks(content)),
            None => None,
        };
        let tool_calls: Option<Vec<OllamaRequestToolCall<'a>>> = match &self.tool_calls {
            Some(calls) => {
                let mut copied: Vec<OllamaRequestToolCall<'a>> = Vec::new();
                for i in 0..calls.len()
                    invariant
                        copied@ == calls@.take(i as int),
                {
                    copied.push(calls[i]);
                }
                assert(copied@ == calls@);
                Some(copied)
            },
            None => None,
        };
        OllamaAssistantRequestMessage { content, tool_calls }
    }
}

#[derive(Clone, Copy, Debug, PartialEq)]
pub struct OllamaToolRequestMessage<'a> {
    pub content: &'a str,
    pub tool_call_id: &'a str,
}

/// A message to Ollama.
#[derive(Debug, PartialEq)]
pub enum OllamaRequestMessage<'a> {
    System(OllamaSystemRequestMessage<'a>),
    User(OllamaUserRequestMessage<'a>),
    Assistant(OllamaAssistantRequestMessage<'a>),
    Tool(OllamaToolRequestMessage<'a>),
}

/// `OllamaRequestMessage` over sequences.
#[allow(inconsistent_fields)]
pub enum MessageModel {
    System { content: Seq<char> },
    User { content: Seq<ContentBlockModel> },
    Assistant {
        content: Option<Seq<ContentBlockModel>>,
        tool_calls: Option<Seq<ToolCallModel>>,
    },
    Tool { content: Seq<char>, tool_call_id: Seq<char> },
}

impl<'a> DeepView for OllamaRequestMessage<'a> {
    type V = MessageModel;

    open spec fn deep_view(&self) -> MessageModel {
        match self {
            OllamaRequestMessage::System(message) => MessageModel::System {
                content: message.content@,
            },
            OllamaRequestMessage::User(message) => MessageModel::User {
                content: message.content.deep_view(),
            },
            OllamaRequestMessage::Assistant(message) => MessageModel::Assistant {
                content: message.content.deep_view(),
                tool_calls: message.tool_calls.deep_view(),
            },
            OllamaRequestMessage::Tool(message) => MessageModel::Tool {
                content: message.content@,
                tool_call_id: message.tool_call_id@,
            },
        }
    }
}

impl<'a> Clone for OllamaRequestMessage<'a> {
    fn clone(&self) -> (copy: OllamaRequestMessage<'a>)
        ensures
            copy.deep_view() == self.deep_view(),
    {
        match self {
            OllamaRequestMessage::System(message) => OllamaRequestMessage::System(message.clone()),
            OllamaRequestMessage::User(message) => OllamaRequestMessage::User(message.clone()),
            OllamaRequestMessage::Assistant(message) => OllamaRequestMessage::Assistant(
                message.clone(),
            ),
            OllamaRequestMessage::Tool(message) => OllamaRequestMessage::Tool(*message),
        }
    }
}

impl MessageModel {
    /// `value` occurs in the lower-case form of some text of the message. Pictures and blocks of
    /// an unknown shape are not looked into.
    pub open spec fn contains_case_insensitive(self, value: Seq<char>) -> bool {
        match self {
            MessageModel::System { content } => has_substring(lowercase_of(content), value),
            MessageModel::User { content } => blocks_contain_case_insensitive(content, value),
            MessageModel::Assistant { content, .. } => match content {
                Some(content) => blocks_contain_case_insensitive(content, value),
                None => false,
            },
            MessageModel::Tool { content, .. } => has_substring(lowercase_of(content), value),
        }
    }
}

impl MessageModel {
    /// Every text of the message that can be searched is ASCII.
    pub open spec fn is_ascii(self) -> bool {
        match self {
            MessageModel::System { content } => is_ascii_chars(content),
            MessageModel::User { content } => blocks_are_ascii(content),
            MessageModel::Assistant { content, .. } => content is Some ==> blocks_are_ascii(
                content->0,
            ),
            MessageModel::Tool { content, .. } => is_ascii_chars(content),
        }
    }

    /// `value` occurs in some text of the message once its letters from A to Z are in lower case.
    pub open spec fn contains_ascii_lowered(self, value: Seq<char>) -> bool {
        match self {
            MessageModel::System { content } => has_substring(ascii_lowercase(content), value),
            MessageModel::User { content } => blocks_contain_ascii_lowered(content, value),
            MessageModel::Assistant { content, .. } => match content {
                Some(content) => blocks_contain_ascii_lowered(content, value),
                None => false,
            },
            MessageModel::Tool { content, .. } => has_substring(ascii_lowercase(content), value),
        }
    }
}

pub open spec fn block_is_ascii(block: ContentBlockModel) -> bool {
    block matches ContentBlockModel::Text { text } ==> is_ascii_chars(text)
}

pub open spec fn blocks_are_ascii(blocks: Seq<ContentBlockModel>) -> bool {
    forall|i: int| 0 <= i < blocks.len() ==> block_is_ascii(#[trigger] blocks[i])
}

pub open spec fn block_contains_ascii_lowered(block: ContentBlockModel, value: Seq<char>) -> bool {
    block matches ContentBlockModel::Text { text } && has_substring(ascii_lowercase(text), value)
}

pub open spec fn blocks_contain_ascii_lowered(
    blocks: Seq<ContentBlockModel>,
    value: Seq<char>,
) -> bool {
    exists|i: int|
        0 <= i < blocks.len() && block_contains_ascii_lowered(#[trigger] blocks[i], value)
}

pub open spec fn are_ascii(messages: Seq<MessageModel>) -> bool {
    forall|i: int| 0 <= i < messages.len() ==> (#[trigger] messages[i]).is_ascii()
}

pub open spec fn contain_ascii_lowered(messages: Seq<MessageModel>, value: Seq<char>) -> bool {
    exists|i: int|
        0 <= i < messages.len() && (#[trigger] messages[i]).contains_ascii_lowered(value)
}

/// `value` occurs in the lower-case form of the text of `block`, if it is a text block.
pub open spec fn block_contains_case_insensitive(
    block: ContentBlockModel,
    value: Seq<char>,
) -> bool {
    match block {
        ContentBlockModel::Text { text } => has_substring(lowercase_of(text), value),
        ContentBlockModel::ImageUrl { .. } => false,
        ContentBlockModel::Unknown { .. } => false,
    }
}

pub open spec fn blocks_contain_case_insensitive(
    blocks: Seq<ContentBlockModel>,
    value: Seq<char>,
) -> bool {
    exists|i: int|
        0 <= i < blocks.len() && block_contains_case_insensitive(#[trigger] blocks[i], value)
}

/// `value` occurs, whatever the case, in some message.
pub open spec fn contain_case_insensitive(messages: Seq<MessageModel>, value: Seq<char>) -> bool {
    exists|i: int|
        0 <= i < messages.len() && (#[trigger] messages[i]).contains_case_insensitive(value)
}

fn text_blocks_contain(blocks: &Vec<OllamaContentBlock<'_>>, value: &str) -> (found: bool)
    ensures
        found == blocks_contain_case_insensitive(blocks.deep_view(), value@),
        blocks_are_ascii(blocks.deep_view()) ==> found == blocks_contain_ascii_lowered(
            blocks.deep_view(),
            value@,
        ),
{
    for i in 0..blocks.len()
        invariant
            forall|j: int|
                0 <= j < i ==> !block_contains_case_insensitive(
                    #[trigger] blocks.deep_view()[j],
                    value@,
                ),
            blocks_are_ascii(blocks.deep_view()) ==> forall|j: int|
                0 <= j < i ==> !block_contains_ascii_lowered(
                    #[trigger] blocks.deep_view()[j],
                    value@,
                ),
    {
        let found: bool = match &blocks[i] {
            OllamaContentBlock::Text { text } => lowercase_contains(text_of(text), value),
            OllamaContentBlock::ImageUrl { .. } => false,
            OllamaContentBlock::Unknown { .. } => false,
        };
        assert(blocks.deep_view()[i as int] == blocks@[i as int].deep_view());
        if found {
            return true;
        }
    }
    false
}

impl<'a> OllamaRequestMessage<'a> {
    /// Whether `value` occurs in the lower-case form of some text of the message. The value is
    /// taken as it is, so it has to be in lower case itself. Where the texts are ASCII, their
    /// letters from A to Z are what is lowered.
    pub fn content_contains_case_insensitive(&self, value: &str) -> (found: bool)
        ensures
            found == self.deep_view().contains_case_insensitive(value@),
            self.deep_view().is_ascii() ==> found == self.deep_view().contains_ascii_lowered(
                value@,
            ),
    {
        match self {
            OllamaRequestMessage::System(message) => {
                lowercase_contains(text_of(&message.content), value)
            },
            OllamaRequestMessage::User(message) => text_blocks_contain(&message.content, value),
            OllamaRequestMessage::Assistant(message) => match &message.content {
                Some(content) => text_blocks_contain(content, value),
                None => false,
            },
            OllamaRequestMessage::Tool(message) => lowercase_contains(message.content, value),
        }
    }
}

fn any_contains_case_insensitive<'a>(messages: &[OllamaRequestMessage<'a>], value: &str) -> (found:
    bool)
    ensures
        found == contain_case_insensitive(
            messages@.map_values(|message: OllamaRequestMessage<'a>| message.deep_view()),
            value@,
        ),
        are_ascii(messages@.map_values(|message: OllamaRequestMessage<'a>| message.deep_view()))
            ==> found == contain_ascii_lowered(
            messages@.map_values(|message: OllamaRequestMessage<'a>| message.deep_view()),
            value@,
        ),
{
    let ghost models = messages@.map_values(
        |message: OllamaRequestMessage<'a>| message.deep_view(),
    );
    for i in 0..messages.len()
        invariant
            models == messages@.map_values(
                |message: OllamaRequestMessage<'a>| message.deep_view(),
            ),
            forall|j: int|
                0 <= j < i ==> !(#[trigger] models[j]).contains_case_insensitive(value@),
            are_ascii(models) ==> forall|j: int|
                0 <= j < i ==> !(#[trigger] models[j]).contains_ascii_lowered(value@),
    {
        assert(models[i as int] == messages@[i as int].deep_view());
        if messages[i].content_contains_case_insensitive(value) {
            return true;
        }
    }
    false
}

/// The system message for an Ollama request. In JSON mode the instructions have to ask for JSON:
/// where neither they nor the conversation mention it (`json_mentioned`), a line that does so goes
/// first.
pub open spec fn system_message_model(
    system: Option<Seq<char>>,
    json_mode: ModelInferenceRequestJsonMode,
    json_mentioned: bool,
) -> Option<MessageModel> {
    match system {
        Some(system) => if json_mode is On && !json_mentioned {
            Some(MessageModel::System { content: "Response using JSON.\n\n"@ + system })
        } else {
            Some(MessageModel::System { content: system })
        },
        None => if json_mode is On {
            Some(MessageModel::System { content: "Respond using JSON."@ })
        } else {
            None
        },
    }
}

/// Whether the instructions or the conversation mention JSON, whatever the case.
pub open spec fn json_mentioned(system: Option<Seq<char>>, messages: Seq<MessageModel>) -> bool {
    ||| contain_case_insensitive(messages, "json"@)
    ||| system is Some && has_substring(lowercase_of(system->0), "json"@)
}

/// The instructions and the texts of the conversation are ASCII.
pub open spec fn is_ascii_request(
    system: Option<Seq<char>>,
    messages: Seq<MessageModel>,
) -> bool {
    &&& system is Some ==> is_ascii_chars(system->0)
    &&& are_ascii(messages)
}

/// Whether the instructions or the conversation mention JSON once their letters from A to Z are in
/// lower case.
pub open spec fn json_mentioned_in_ascii(
    system: Option<Seq<char>>,
    messages: Seq<MessageModel>,
) -> bool {
    ||| contain_ascii_lowered(messages, "json"@)
    ||| system is Some && has_substring(ascii_lowercase(system->0), "json"@)
}

/// The system message, given whether JSON is mentioned already.
pub fn compose_system_message<'a>(
    system: Option<&'a str>,
    json_mode: ModelInferenceRequestJsonMode,
    json_mentioned: bool,
) -> (message: Option<OllamaRequestMessage<'a>>)
    ensures
        message.deep_view() == system_message_model(system.deep_view(), json_mode, json_mentioned),
{
    match system {
        Some(system) => {
            if let ModelInferenceRequestJsonMode::On = json_mode {
                if !json_mentioned {
                    return Some(
                        OllamaRequestMessage::System(
                            OllamaSystemRequestMessage {
                                content: Cow::Owned(join("Response using JSON.\n\n", system)),
                            },
                        ),
                    );
                }
            }
            Some(
                OllamaRequestMessage::System(
                    OllamaSystemRequestMessage { content: Cow::Borrowed(system) },
                ),
            )
        },
        None => match json_mode {
            ModelInferenceRequestJsonMode::On => Some(
                OllamaRequestMessage::System(
                    OllamaSystemRequestMessage {
                        content: Cow::Owned("Respond using JSON.".to_owned()),
                    },
                ),
            ),
            _ => None,
        },
    }
}

/// Composing the system message again, from its own content, changes nothing.
pub open spec fn is_settled(
    message: MessageModel,
    json_mode: ModelInferenceRequestJsonMode,
    messages: Seq<MessageModel>,
) -> bool {
    message matches MessageModel::System { content } && system_message_model(
        Some(content),
        json_mode,
        json_mentioned(Some(content), messages),
    ) == Some(message)
}

/// A system message that was made to ask for JSON says "JSON".
pub proof fn lemma_made_to_say_json(system: Option<Seq<char>>)
    ensures
        system_message_model(system, ModelInferenceRequestJsonMode::On, false) matches Some(
            MessageModel::System { content },
        ) && has_substring(content, "JSON"@),
{
    reveal_strlit("JSON");
    reveal_strlit("Respond using JSON.");
    reveal_strlit("Response using JSON.\n\n");
    let message = system_message_model(system, ModelInferenceRequestJsonMode::On, false)->0;
    let content = message->System_content;
    match system {
        Some(_) => {
            assert(content.subrange(15, 19) == "JSON"@);
            assert(matches_at(content, "JSON"@, 15));
        },
        None => {
            assert(content.subrange(14, 18) == "JSON"@);
            assert(matches_at(content, "JSON"@, 14));
        },
    }
}

/// The system message of a request whose other messages are `messages`. With JSON mode on, Ollama
/// refuses a request that nowhere says "JSON", so the instructions are made to say it: JSON is then
/// mentioned, whatever the case, in the messages or in the system message. The line that asks for
/// it is never added twice. Where all texts are ASCII, it is known when JSON counts as mentioned.
pub fn tensorzero_to_ollama_system_message<'a>(
    system: Option<&'a str>,
    json_mode: ModelInferenceRequestJsonMode,
    messages: &[OllamaRequestMessage<'a>],
) -> (message: Option<OllamaRequestMessage<'a>>)
    ensures
        message.deep_view() == system_message_model(
            system.deep_view(),
            json_mode,
            json_mentioned(
                system.deep_view(),
                messages@.map_values(|message: OllamaRequestMessage<'a>| message.deep_view()),
            ),
        ),
        json_mode is On ==> {
            ||| contain_case_insensitive(
                messages@.map_values(|message: OllamaRequestMessage<'a>| message.deep_view()),
                "json"@,
            )
            ||| message is Some && message->0.deep_view().contains_case_insensitive("json"@)
        },
        is_ascii_request(
            system.deep_view(),
            messages@.map_values(|message: OllamaRequestMessage<'a>| message.deep_view()),
        ) ==> message.deep_view() == system_message_model(
            system.deep_view(),
            json_mode,
            json_mentioned_in_ascii(
                system.deep_view(),
                messages@.map_values(|message: OllamaRequestMessage<'a>| message.deep_view()),
            ),
        ),
        message is Some ==> is_settled(
            message->0.deep_view(),
            json_mode,
            messages@.map_values(|message: OllamaRequestMessage<'a>| message.deep_view()),
        ),
{
    let found: bool = match (system, json_mode) {
        (Some(system), ModelInferenceRequestJsonMode::On) => {
            any_contains_case_insensitive(messages, "json") || lowercase_contains(system, "json")
        },
        _ => false,
    };
    let message = compose_system_message(system, json_mode, found);
    if let (ModelInferenceRequestJsonMode::On, false, Some(OllamaRequestMessage::System(made))) = (
        json_mode,
        found,
        &message,
    ) {
        proof {
            lemma_made_to_say_json(system.deep_view());
        }
        // What is promised of a lower-case form is promised of texts that were lowered.
        find_lowered_json(text_of(&made.content));
    }
    message
}

/// The data URL of a file in a user message.
pub open spec fn user_file_url(mime_type: Seq<char>, data: Seq<char>) -> Seq<char> {
    "data: "@ + mime_type + "; base64,"@ + data
}

/// The data URL of a file in an assistant message.
pub open spec fn assistant_file_url(mime_type: Seq<char>, data: Seq<char>) -> Seq<char> {
    "data:"@ + mime_type + ";base64,"@ + data
}

/// What a block adds to the content of a user message.
pub open spec fn user_block(block: ContentBlock) -> Option<ContentBlockModel> {
    match block {
        ContentBlock::Text(text) => Some(ContentBlockModel::Text { text: text.text@ }),
        ContentBlock::File(file) => match file.file.data_model() {
            Ok(data) => Some(
                ContentBlockModel::ImageUrl { url: user_file_url(file.file.mime_type@, data) },
            ),
            Err(_) => None,
        },
        ContentBlock::Unknown { data, .. } => Some(ContentBlockModel::Unknown { data }),
        _ => None,
    }
}

/// The message of its own that a block of a user message becomes.
pub open spec fn tool_message(block: ContentBlock) -> Option<MessageModel> {
    match block {
        ContentBlock::ToolResult(result) => Some(
            MessageModel::Tool { content: result.result@, tool_call_id: result.id@ },
        ),
        _ => None,
    }
}

/// Why a block cannot stand in a user message.
pub open spec fn user_block_error(block: ContentBlock) -> Option<ErrorModel> {
    match block {
        ContentBlock::ToolCall(_) => Some(
            ErrorModel::InvalidMessage {
                message: "Tool calls are not supported in user messages"@,
            },
        ),
        ContentBlock::File(file) => match file.file.data_model() {
            Ok(_) => None,
            Err(error) => Some(error),
        },
        _ => None,
    }
}

pub open spec fn user_blocks(blocks: Seq<ContentBlock>) -> Seq<ContentBlockModel> {
    blocks.filter_map(|block: ContentBlock| user_block(block))
}

pub open spec fn tool_messages(blocks: Seq<ContentBlock>) -> Seq<MessageModel> {
    blocks.filter_map(|block: ContentBlock| tool_message(block))
}

pub open spec fn user_errors(blocks: Seq<ContentBlock>) -> Seq<ErrorModel> {
    blocks.filter_map(|block: ContentBlock| user_block_error(block))
}

/// A user message for Ollama: one message for each tool result, in order, and then, where
/// anything else is left, one user message with the rest, in order. Thoughts are dropped. The
/// first block that cannot be converted decides the error.
pub open spec fn user_messages(blocks: Seq<ContentBlock>) -> Result<
    Seq<MessageModel>,
    ErrorModel,
> {
    if user_errors(blocks).len() > 0 {
        Err(user_errors(blocks)[0])
    } else if user_blocks(blocks).len() > 0 {
        Ok(tool_messages(blocks).push(MessageModel::User { content: user_blocks(blocks) }))
    } else {
        Ok(tool_messages(blocks))
    }
}

/// The first element that gives something decides what comes first.
proof fn lemma_filter_map_first<A, B>(s: Seq<A>, f: spec_fn(A) -> Option<B>, k: int)
    requires
        0 <= k < s.len(),
        s.take(k).filter_map(f).len() == 0,
        f(s[k]) is Some,
    ensures
        s.filter_map(f).len() > 0,
        s.filter_map(f)[0] == f(s[k])->0,
    decreases s.len(),
{
    if k == s.len() - 1 {
        assert(s.drop_last() == s.take(k));
    } else {
        assert(s.drop_last().take(k) == s.take(k));
        lemma_filter_map_first(s.drop_last(), f, k);
    }
}

/// Converts the blocks of a user message.
pub fn tensorzero_to_ollama_user_message<'a>(content_blocks: &'a [ContentBlock]) -> (messages:
    Result<Vec<OllamaRequestMessage<'a>>, Error>)
    ensures
        outcome(messages) == user_messages(content_blocks@),
{
    let mut messages: Vec<OllamaRequestMessage<'a>> = Vec::new();
    let mut user_content_blocks: Vec<OllamaContentBlock<'a>> = Vec::new();
    for i in 0..content_blocks.len()
        invariant
            messages.deep_view() == tool_messages(content_blocks@.take(i as int)),
            user_content_blocks.deep_view() == user_blocks(content_blocks@.take(i as int)),
            user_errors(content_blocks@.take(i as int)).len() == 0,
    {
        proof {
            assert(content_blocks@.take(i + 1).drop_last() == content_blocks@.take(i as int));
            if user_block_error(content_blocks@[i as int]) is Some {
                lemma_filter_map_first(
                    content_blocks@,
                    |block: ContentBlock| user_block_error(block),
                    i as int,
                );
            }
        }
        let ghost messages_before = messages.deep_view();
        let ghost blocks_before = user_content_blocks.deep_view();
        match &content_blocks[i] {
            ContentBlock::Text(text) => {
                user_content_blocks.push(
                    OllamaContentBlock::Text { text: Cow::Borrowed(text.text.as_str()) },
                );
            },
            ContentBlock::ToolCall(_) => {
                return Err(
                    Error::new(
                        ErrorDetails::InvalidMessage {
                            message: "Tool calls are not supported in user messages".to_owned(),
                        },
                    ),
                );
            },
            ContentBlock::ToolResult(tool_result) => {
                messages.push(
                    OllamaRequestMessage::Tool(
                        OllamaToolRequestMessage {
                            content: tool_result.result.as_str(),
                            tool_call_id: tool_result.id.as_str(),
                        },
                    ),
                );
            },
            ContentBlock::File(file) => {
                let data: &str = match file.file.data() {
                    Ok(data) => data,
                    Err(error) => {
                        return Err(error);
                    },
                };
                let prefix = join("data: ", file.file.mime_type.as_str());
                let header = join(prefix.as_str(), "; base64,");
                user_content_blocks.push(
                    OllamaContentBlock::ImageUrl {
                        image_url: OllamaImageUrl { url: join(header.as_str(), data) },
                    },
                );
            },
            ContentBlock::Thought(_) => {},
            ContentBlock::Unknown { data, .. } => {
                user_content_blocks.push(OllamaContentBlock::Unknown { data: Cow::Borrowed(data) });
            },
        }
        assert(messages.deep_view() == messages_before + (match tool_message(
            content_blocks@[i as int],
        ) {
            Some(message) => seq![message],
            None => Seq::empty(),
        }));
        assert(user_content_blocks.deep_view() == blocks_before + (match user_block(
            content_blocks@[i as int],
        ) {
            Some(block) => seq![block],
            None => Seq::empty(),
        }));
    }
    assert(content_blocks@.take(content_blocks@.len() as int) == content_blocks@);
    if user_content_blocks.len() > 0 {
        let ghost messages_before = messages.deep_view();
        messages.push(
            OllamaRequestMessage::User(OllamaUserRequestMessage { content: user_content_blocks }),
        );
        assert(messages.deep_view() == messages_before.push(
            MessageModel::User { content: user_content_blocks.deep_view() },
        ));
    }
    Ok(messages)
}

/// What a block adds to the content of an assistant message.
pub open spec fn assistant_block(block: ContentBlock) -> Option<ContentBlockModel> {
    match block {
        ContentBlock::Text(text) => Some(ContentBlockModel::Text { text: text.text@ }),
        ContentBlock::File(file) => match file.file.data_model() {
            Ok(data) => Some(
                ContentBlockModel::ImageUrl { url: assistant_file_url(file.file.mime_type@, data) },
            ),
            Err(_) => None,
        },
        ContentBlock::Unknown { data, .. } => Some(ContentBlockModel::Unknown { data }),
        _ => None,
    }
}

/// The tool call that a block of an assistant message holds.
pub open spec fn assistant_tool_call(block: ContentBlock) -> Option<ToolCallModel> {
    match block {
        ContentBlock::ToolCall(tool_call) => Some(tool_call_model(tool_call)),
        _ => None,
    }
}

/// Why a block cannot stand in an assistant message.
pub open spec fn assistant_block_error(block: ContentBlock) -> Option<ErrorModel> {
    match block {
        ContentBlock::ToolResult(_) => Some(
            ErrorModel::InvalidMessage {
                message: "Tool results are not supported in assistant messages"@,
            },
        ),
        ContentBlock::File(file) => match file.file.data_model() {
            Ok(_) => None,
            Err(error) => Some(error),
        },
        _ => None,
    }
}

pub open spec fn assistant_blocks(blocks: Seq<ContentBlock>) -> Seq<ContentBlockModel> {
    blocks.filter_map(|block: ContentBlock| assistant_block(block))
}

pub open spec fn assistant_tool_calls(blocks: Seq<ContentBlock>) -> Seq<ToolCallModel> {
    blocks.filter_map(|block: ContentBlock| assistant_tool_call(block))
}

pub open spec fn assistant_errors(blocks: Seq<ContentBlock>) -> Seq<ErrorModel> {
    blocks.filter_map(|block: ContentBlock| assistant_block_error(block))
}

/// The sequence, unless it is empty.
pub open spec fn unless_empty<A>(s: Seq<A>) -> Option<Seq<A>> {
    if s.len() == 0 {
        None
    } else {
        Some(s)
    }
}

/// An assistant message for Ollama: always one message, with the tool calls apart from the rest,
/// both in order. Thoughts are dropped. The first block that cannot be converted decides the
/// error.
pub open spec fn assistant_messages(blocks: Seq<ContentBlock>) -> Result<
    Seq<MessageModel>,
    ErrorModel,
> {
    if assistant_errors(blocks).len() > 0 {
        Err(assistant_errors(blocks)[0])
    } else {
        Ok(
            seq![
                MessageModel::Assistant {
                    content: unless_empty(assistant_blocks(blocks)),
                    tool_calls: unless_empty(assistant_tool_calls(blocks)),
                },
            ],
        )
    }
}

/// Converts the blocks of an assistant message.
pub fn tensorzero_to_ollama_assistant_message<'a>(content_blocks: &'a [ContentBlock]) -> (messages:
    Result<Vec<OllamaRequestMessage<'a>>, Error>)
    ensures
        outcome(messages) == assistant_messages(content_blocks@),
{
    let mut assistant_content_blocks: Vec<OllamaContentBlock<'a>> = Vec::new();
    let mut tool_calls: Vec<OllamaRequestToolCall<'a>> = Vec::new();
    for i in 0..content_blocks.len()
        invariant
            assistant_content_blocks.deep_view() == assistant_blocks(
                content_blocks@.take(i as int),
            ),
            tool_calls.deep_view() == assistant_tool_calls(content_blocks@.take(i as int)),
            assistant_errors(content_blocks@.take(i as int)).len() == 0,
    {
        proof {
            assert(content_blocks@.take(i + 1).drop_last() == content_blocks@.take(i as int));
            if assistant_block_error(content_blocks@[i as int]) is Some {
                lemma_filter_map_first(
                    content_blocks@,
                    |block: ContentBlock| assistant_block_error(block),
                    i as int,
                );
            }
        }
        let ghost blocks_before = assistant_content_blocks.deep_view();
        let ghost calls_before = tool_calls.deep_view();
        match &content_blocks[i] {
            ContentBlock::Text(text) => {
                assistant_content_blocks.push(
                    OllamaContentBlock::Text { text: Cow::Borrowed(text.text.as_str()) },
                );
            },
            ContentBlock::ToolCall(tool_call) => {
                tool_calls.push(OllamaRequestToolCall::from(tool_call));
            },
            ContentBlock::ToolResult(_) => {
                return Err(
                    Error::new(
                        ErrorDetails::InvalidMessage {
                            message:
                                "Tool results are not supported in assistant messages".to_owned(),
                        },
                    ),
                );
            },
            ContentBlock::File(file) => {
                let data: &str = match file.file.data() {
                    Ok(data) => data,
                    Err(error) => {
                        return Err(error);
                    },
                };
                let prefix = join("data:", file.file.mime_type.as_str());
                let header = join(prefix.as_str(), ";base64,");
                assistant_content_blocks.push(
                    OllamaContentBlock::ImageUrl {
                        image_url: OllamaImageUrl { url: join(header.as_str(), data) },
                    },
                );
            },
            ContentBlock::Thought(_) => {},
            ContentBlock::Unknown { data, .. } => {
                assistant_content_blocks.push(
                    OllamaContentBlock::Unknown { data: Cow::Borrowed(data) },
                );
            },
        }
        assert(assistant_content_blocks.deep_view() == blocks_before + (match assistant_block(
            content_blocks@[i as int],
        ) {
            Some(block) => seq![block],
            None => Seq::empty(),
        }));
        assert(tool_calls.deep_view() == calls_before + (match assistant_tool_call(
            content_blocks@[i as int],
        ) {
            Some(tool_call) => seq![tool_call],
            None => Seq::empty(),
        }));
    }
    assert(content_blocks@.take(content_blocks@.len() as int) == content_blocks@);
    let content: Option<Vec<OllamaContentBlock<'a>>> = if assistant_content_blocks.len() == 0 {
        None
    } else {
        Some(assistant_content_blocks)
    };
    let tool_calls: Option<Vec<OllamaRequestToolCall<'a>>> = if tool_calls.len() == 0 {
        None
    } else {
        Some(tool_calls)
    };
    let mut messages: Vec<OllamaRequestMessage<'a>> = Vec::new();
    messages.push(
        OllamaRequestMessage::Assistant(OllamaAssistantRequestMessage { content, tool_calls }),
    );
    assert(messages.deep_view() == seq![messages@[0].deep_view()]);
    Ok(messages)
}

/// What Ollama is told for one message of the gateway.
pub open spec fn message_models(message: RequestMessageModel) -> Result<
    Seq<MessageModel>,
    ErrorModel,
> {
    match message.role {
        Role::User => user_messages(message.content),
        Role::Assistant => assistant_messages(message.content),
    }
}

/// Converts a message according to its role.
pub fn tensorzero_to_ollama_message<'a>(message: &'a RequestMessage) -> (messages: Result<
    Vec<OllamaRequestMessage<'a>>,
    Error,
>)
    ensures
        outcome(messages) == message_models(message.deep_view()),
{
    match message.role {
        Role::User => tensorzero_to_ollama_user_message(message.content.as_slice()),
        Role::Assistant => tensorzero_to_ollama_assistant_message(message.content.as_slice()),
    }
}

/// Why a block cannot stand in a message of that role.
pub open spec fn block_error(role: Role, block: ContentBlock) -> Option<ErrorModel> {
    match role {
        Role::User => user_block_error(block),
        Role::Assistant => assistant_block_error(block),
    }
}

/// The thoughts that are dropped when the blocks of a message are converted: all of them, in order,
/// up to the first block that cannot be converted.
pub open spec fn dropped_thoughts(role: Role, blocks: Seq<ContentBlock>) -> Seq<Thought>
    decreases blocks.len(),
{
    if blocks.len() == 0 || block_error(role, blocks[0]) is Some {
        Seq::empty()
    } else {
        match blocks[0] {
            ContentBlock::Thought(thought) => seq![thought] + dropped_thoughts(
                role,
                blocks.drop_first(),
            ),
            _ => dropped_thoughts(role, blocks.drop_first()),
        }
    }
}

fn can_stand(role: Role, block: &ContentBlock) -> (can: bool)
    ensures
        can == (block_error(role, *block) is None),
{
    match (role, block) {
        (Role::User, ContentBlock::ToolCall(_)) => false,
        (Role::Assistant, ContentBlock::ToolResult(_)) => false,
        (_, ContentBlock::File(file)) => file.file.data.is_ok(),
        _ => true,
    }
}

/// The thoughts of a message that do not reach Ollama, for the gateway to warn of.
pub fn discarded_thoughts<'a>(message: &'a RequestMessage) -> (thoughts: Vec<&'a Thought>)
    ensures
        thoughts@.map_values(|thought: &'a Thought| *thought) == dropped_thoughts(
            message.role,
            message.content@,
        ),
{
    let ghost blocks = message.content@;
    let mut thoughts: Vec<&'a Thought> = Vec::new();
    assert(blocks.skip(0) == blocks);
    assert(thoughts@.map_values(|thought: &'a Thought| *thought) == Seq::<Thought>::empty());
    for i in 0..message.content.len()
        invariant
            blocks == message.content@,
            dropped_thoughts(message.role, blocks) == thoughts@.map_values(
                |thought: &'a Thought| *thought,
            ) + dropped_thoughts(message.role, blocks.skip(i as int)),
    {
        let ghost before = thoughts@.map_values(|thought: &'a Thought| *thought);
        let ghost rest = blocks.skip(i as int);
        assert(rest[0] == blocks[i as int]);
        assert(rest.drop_first() == blocks.skip(i + 1));
        if !can_stand(message.role, &message.content[i]) {
            return thoughts;
        }
        if let ContentBlock::Thought(thought) = &message.content[i] {
            thoughts.push(thought);
            assert(thoughts@.map_values(|thought: &'a Thought| *thought) == before.push(*thought));
        }
    }
    thoughts
}

/// What Ollama is told for a conversation: what it is told for each message, in order. The first
/// message that cannot be converted decides the error.
pub open spec fn conversation(messages: Seq<RequestMessageModel>) -> Result<
    Seq<MessageModel>,
    ErrorModel,
>
    decreases messages.len(),
{
    if messages.len() == 0 {
        Ok(Seq::empty())
    } else {
        match (conversation(messages.drop_last()), message_models(messages.last())) {
            (Err(error), _) => Err(error),
            (Ok(_), Err(error)) => Err(error),
            (Ok(earlier), Ok(last)) => Ok(earlier + last),
        }
    }
}

/// The messages with the system message, if there is one, in front.
pub open spec fn with_system_message(
    told: Seq<MessageModel>,
    system: Option<Seq<char>>,
    json_mode: ModelInferenceRequestJsonMode,
    json_mentioned: bool,
) -> Seq<MessageModel> {
    match system_message_model(system, json_mode, json_mentioned) {
        Some(message) => seq![message] + told,
        None => told,
    }
}

/// The conversation with the system message, if there is one, in front.
pub open spec fn prepared_messages(
    messages: Seq<RequestMessageModel>,
    system: Option<Seq<char>>,
    json_mode: ModelInferenceRequestJsonMode,
) -> Result<Seq<MessageModel>, ErrorModel> {
    match conversation(messages) {
        Err(error) => Err(error),
        Ok(told) => Ok(
            with_system_message(told, system, json_mode, json_mentioned(system, told)),
        ),
    }
}

/// An error among the first messages is the error of the whole conversation.
proof fn lemma_conversation_error(messages: Seq<RequestMessageModel>, k: int)
    requires
        0 <= k <= messages.len(),
        conversation(messages.take(k)) is Err,
    ensures
        conversation(messages) == conversation(messages.take(k)),
    decreases messages.len(),
{
    if k == messages.len() {
        assert(messages.take(k) == messages);
    } else {
        assert(messages.drop_last().take(k) == messages.take(k));
        lemma_conversation_error(messages.drop_last(), k);
    }
}

/// All messages of a request, with the system message in front. With JSON mode on, some message
/// mentions JSON, whatever the case. Where all texts are ASCII, it is known when JSON counts as
/// mentioned.
pub fn prepare_ollama_messages<'a>(request: &'a ModelInferenceRequest) -> (messages: Result<
    Vec<OllamaRequestMessage<'a>>,
    Error,
>)
    ensures
        outcome(messages) == prepared_messages(
            request.messages.deep_view(),
            request.system.deep_view(),
            request.json_mode,
        ),
        conversation(request.messages.deep_view()) matches Ok(told) ==> is_ascii_request(
            request.system.deep_view(),
            told,
        ) ==> outcome(messages) == Ok::<Seq<MessageModel>, ErrorModel>(
            with_system_message(
                told,
                request.system.deep_view(),
                request.json_mode,
                json_mentioned_in_ascii(request.system.deep_view(), told),
            ),
        ),
        request.json_mode is On && messages is Ok ==> contain_case_insensitive(
            outcome(messages)->Ok_0,
            "json"@,
        ),
{
    let ghost models = request.messages.deep_view();
    let mut messages: Vec<OllamaRequestMessage<'a>> = Vec::new();
    assert(messages.deep_view() == Seq::<MessageModel>::empty());
    for i in 0..request.messages.len()
        invariant
            models == request.messages.deep_view(),
            conversation(models.take(i as int)) == Ok::<Seq<MessageModel>, ErrorModel>(
                messages.deep_view(),
            ),
    {
        proof {
            assert(models.take(i + 1).drop_last() == models.take(i as int));
            assert(models.take(i + 1).last() == request.messages@[i as int].deep_view());
        }
        let ghost before = messages.deep_view();
        match tensorzero_to_ollama_message(&request.messages[i]) {
            Ok(mut told) => {
                let ghost added = told.deep_view();
                messages.append(&mut told);
                assert(messages.deep_view() == before + added);
            },
            Err(error) => {
                proof {
                    lemma_conversation_error(models, i + 1);
                }
                return Err(error);
            },
        }
    }
    assert(models.take(models.len() as int) == models);
    let system: Option<&'a str> = match &request.system {
        Some(system) => Some(system.as_str()),
        None => None,
    };
    let ghost told = messages.deep_view();
    assert(messages@.map_values(|message: OllamaRequestMessage<'a>| message.deep_view()) == told);
    match tensorzero_to_ollama_system_message(system, request.json_mode, messages.as_slice()) {
        Some(message) => {
            messages.insert(0, message);
            assert(messages.deep_view() == seq![message.deep_view()] + told);
            assert(messages.deep_view()[0] == message.deep_view());
            assert(forall|i: int|
                0 <= i < told.len() ==> #[trigger] told[i] == messages.deep_view()[i + 1]);
        },
        None => {},
    }
    Ok(messages)
}

} // verus!
