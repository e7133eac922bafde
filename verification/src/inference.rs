//! The gateway's own inference types: what a request holds and what a reply is turned into.

use serde_json::Value;
use std::time::Duration;
use vstd::prelude::*;

use crate::error::{outcome, Error, ErrorModel};
use crate::tool::ToolCallConfig;

verus! {

/// A JSON value, as `serde_json` holds it. The library carries such values along and never looks
/// inside them.
#[verifier::external_type_specification]
#[verifier::external_body]
pub struct ExValue(serde_json::Value);

/// The derived `Clone` of `serde_json::Value`. The contract claims that the copy is the same
/// value.
pub assume_specification[ <serde_json::Value as Clone>::clone ](value: &serde_json::Value) -> (copy:
    serde_json::Value)
    ensures
        copy == *value,
;

#[derive(Clone, Copy, Debug, PartialEq, Eq, Structural)]
pub enum Role {
    User,
    Assistant,
}

#[derive(Debug, PartialEq)]
pub struct Text {
    pub text: String,
}

impl Clone for Text {
    fn clone(&self) -> (copy: Text)
        ensures
            copy == *self,
    {
        Text { text: self.text.clone() }
    }
}

#[derive(Debug, PartialEq)]
pub struct ToolCall {
    pub id: String,
    pub name: String,
    pub arguments: String,
}

impl Clone for ToolCall {
    fn clone(&self) -> (copy: ToolCall)
        ensures
            copy == *self,
    {
        ToolCall {
            id: self.id.clone(),
            name: self.name.clone(),
            arguments: self.arguments.clone(),
        }
    }
}

#[derive(Debug, PartialEq)]
pub struct ToolResult {
    pub id: String,
    pub name: String,
    pub result: String,
}

impl Clone for ToolResult {
    fn clone(&self) -> (copy: ToolResult)
        ensures
            copy == *self,
    {
        ToolResult { id: self.id.clone(), name: self.name.clone(), result: self.result.clone() }
    }
}

/// A file in base64. `data` is what the gateway gave for its data: the data, or the error that
/// there are none to be had.
#[derive(Debug, PartialEq)]
pub struct Base64File {
    pub mime_type: String,
    pub data: Result<String, Error>,
}

impl Base64File {
    pub open spec fn data_model(self) -> Result<Seq<char>, ErrorModel> {
        outcome(self.data)
    }

    /// The data of the file, or the gateway's error as it is.
    pub fn data(&self) -> (data: Result<&str, Error>)
        ensures
            outcome(data) == self.data_model(),
    {
        match &self.data {
            Ok(data) => Ok(data.as_str()),
            Err(error) => Err(error.clone()),
        }
    }
}

impl Clone for Base64File {
    fn clone(&self) -> (copy: Base64File)
        ensures
            copy == *self,
    {
        Base64File {
            mime_type: self.mime_type.clone(),
            data: match &self.data {
                Ok(data) => Ok(data.clone()),
                Err(error) => Err(error.clone()),
            },
        }
    }
}

/// A file and the place where the gateway keeps it.
#[derive(Debug, PartialEq)]
pub struct FileWithPath {
    pub file: Base64File,
    pub storage_path: String,
}

impl Clone for FileWithPath {
    fn clone(&self) -> (copy: FileWithPath)
        ensures
            copy == *self,
    {
        FileWithPath { file: self.file.clone(), storage_path: self.storage_path.clone() }
    }
}

/// A piece of a model's reasoning.
#[derive(Debug, PartialEq)]
pub struct Thought {
    pub text: Option<String>,
    pub signature: Option<String>,
}

impl Clone for Thought {
    fn clone(&self) -> (copy: Thought)
        ensures
            copy == *self,
    {
        Thought { text: self.text.clone(), signature: self.signature.clone() }
    }
}

/// One block of a message.
#[derive(Debug, PartialEq)]
pub enum ContentBlock {
    Text(Text),
    ToolCall(ToolCall),
    ToolResult(ToolResult),
    File(Box<FileWithPath>),
    Thought(Thought),
    Unknown { data: Value, model_provider_name: Option<String> },
}

impl Clone for ContentBlock {
    fn clone(&self) -> (copy: ContentBlock)
        ensures
            copy == *self,
    {
        match self {
            ContentBlock::Text(text) => ContentBlock::Text(text.clone()),
            ContentBlock::ToolCall(tool_call) => ContentBlock::ToolCall(tool_call.clone()),
            ContentBlock::ToolResult(tool_result) => ContentBlock::ToolResult(tool_result.clone()),
            ContentBlock::File(file) => ContentBlock::File(Box::new((&**file).clone())),
            ContentBlock::Thought(thought) => ContentBlock::Thought(thought.clone()),
            ContentBlock::Unknown { data, model_provider_name } => ContentBlock::Unknown {
                data: data.clone(),
                model_provider_name: model_provider_name.clone(),
            },
        }
    }
}

/// A message of the conversation.
#[derive(Debug, PartialEq)]
pub struct RequestMessage {
    pub role: Role,
    pub content: Vec<ContentBlock>,
}

/// `RequestMessage` with its blocks as a sequence.
pub struct RequestMessageModel {
    pub role: Role,
    pub content: Seq<ContentBlock>,
}

impl DeepView for RequestMessage {
    type V = RequestMessageModel;

    open spec fn deep_view(&self) -> RequestMessageModel {
        RequestMessageModel { role: self.role, content: self.content@ }
    }
}

impl Clone for RequestMessage {
    fn clone(&self) -> (copy: RequestMessage)
        ensures
            copy.deep_view() == self.deep_view(),
    {
        let mut content: Vec<ContentBlock> = Vec::new();
        for i in 0..self.content.len()
            invariant
                content@ == self.content@.take(i as int),
        {
            content.push(self.content[i].clone());
        }
        assert(content@ == self.content@);
        RequestMessage { role: self.role, content }
    }
}

/// The same messages, in the same order.
pub fn clone_messages(messages: &[RequestMessage]) -> (copy: Vec<RequestMessage>)
    ensures
        copy.deep_view() == messages@.map_values(|message: RequestMessage| message.deep_view()),
{
    let mut copy: Vec<RequestMessage> = Vec::new();
    for i in 0..messages.len()
        invariant
            copy@.len() == i,
            forall|j: int|
                0 <= j < i ==> (#[trigger] copy@[j]).deep_view() == messages@[j].deep_view(),
    {
        copy.push(messages[i].clone());
    }
    copy
}

/// Whether the reply has to be JSON.
#[derive(Clone, Copy, Debug, PartialEq, Eq, Structural)]
pub enum ModelInferenceRequestJsonMode {
    Off,
    On,
    Strict,
}

/// A request to a model, as the gateway hands it to a provider.
#[derive(Debug, PartialEq)]
pub struct ModelInferenceRequest {
    pub messages: Vec<RequestMessage>,
    pub system: Option<String>,
    pub tool_config: Option<ToolCallConfig>,
    pub json_mode: ModelInferenceRequestJsonMode,
}

/// Tokens that an inference read and wrote.
#[derive(Clone, Copy, Debug, PartialEq, Eq, Structural)]
pub struct Usage {
    pub input_tokens: u32,
    pub output_tokens: u32,
}

/// Why a model stopped.
#[derive(Clone, Copy, Debug, PartialEq, Eq, Structural)]
pub enum FinishReason {
    Stop,
    Unknown,
}

/// How long an inference took.
#[derive(Debug, PartialEq)]
pub enum Latency {
    Streaming { ttft: Duration, response_time: Duration },
    NonStreaming { response_time: Duration },
    Batch,
}

/// One block of a model's answer.
#[derive(Debug, PartialEq)]
pub enum ContentBlockOutput {
    Text(Text),
}

/// `ContentBlockOutput` with its text as a sequence of characters.
pub enum ContentBlockOutputModel {
    Text { text: Seq<char> },
}

impl DeepView for ContentBlockOutput {
    type V = ContentBlockOutputModel;

    open spec fn deep_view(&self) -> ContentBlockOutputModel {
        match self {
            ContentBlockOutput::Text(text) => ContentBlockOutputModel::Text { text: text.text@ },
        }
    }
}

/// What a complete answer consists of.
#[derive(Debug, PartialEq)]
pub struct ProviderInferenceResponse {
    pub output: Vec<ContentBlockOutput>,
    pub system: Option<String>,
    pub input_messages: Vec<RequestMessage>,
    pub raw_request: String,
    pub raw_response: String,
    pub usage: Usage,
    pub latency: Latency,
    pub finish_reason: Option<FinishReason>,
}

/// `ProviderInferenceResponse` over sequences.
pub struct ResponseModel {
    pub output: Seq<ContentBlockOutputModel>,
    pub system: Option<Seq<char>>,
    pub input_messages: Seq<RequestMessageModel>,
    pub raw_request: Seq<char>,
    pub raw_response: Seq<char>,
    pub usage: Usage,
    pub latency: Latency,
    pub finish_reason: Option<FinishReason>,
}

impl DeepView for ProviderInferenceResponse {
    type V = ResponseModel;

    open spec fn deep_view(&self) -> ResponseModel {
        ResponseModel {
            output: self.output.deep_view(),
            system: self.system.deep_view(),
            input_messages: self.input_messages.deep_view(),
            raw_request: self.raw_request@,
            raw_response: self.raw_response@,
            usage: self.usage,
            latency: self.latency,
            finish_reason: self.finish_reason,
        }
    }
}

/// A piece of text of a streamed answer, with the number of the block that it belongs to.
#[derive(Debug, PartialEq)]
pub struct TextChunk {
    pub text: String,
    pub id: String,
}

/// One block of a streamed piece of an answer.
#[derive(Debug, PartialEq)]
pub enum ContentBlockChunk {
    Text(TextChunk),
}

/// `ContentBlockChunk` with its texts as sequences of characters.
pub enum ContentBlockChunkModel {
    Text { text: Seq<char>, id: Seq<char> },
}

impl DeepView for ContentBlockChunk {
    type V = ContentBlockChunkModel;

    open spec fn deep_view(&self) -> ContentBlockChunkModel {
        match self {
            ContentBlockChunk::Text(chunk) => ContentBlockChunkModel::Text {
                text: chunk.text@,
                id: chunk.id@,
            },
        }
    }
}

/// A streamed piece of an answer.
#[derive(Debug, PartialEq)]
pub struct ProviderInferenceResponseChunk {
    pub content: Vec<ContentBlockChunk>,
    pub usage: Option<Usage>,
    pub raw_response: String,
    pub latency: Duration,
    pub finish_reason: Option<FinishReason>,
}

/// `ProviderInferenceResponseChunk` over sequences.
pub struct ChunkModel {
    pub content: Seq<ContentBlockChunkModel>,
    pub usage: Option<Usage>,
    pub raw_response: Seq<char>,
    pub latency: Duration,
    pub finish_reason: Option<FinishReason>,
}

impl DeepView for ProviderInferenceResponseChunk {
    type V = ChunkModel;

    open spec fn deep_view(&self) -> ChunkModel {
        ChunkModel {
            content: self.content.deep_view(),
            usage: self.usage,
            raw_response: self.raw_response@,
            latency: self.latency,
            finish_reason: self.finish_reason,
        }
    }
}

} // verus!
