//! The chat request that is sent to Ollama.

use vstd::prelude::*;

use crate::inference::{ModelInferenceRequest, ModelInferenceRequestJsonMode, RequestMessage};
use crate::message::{MessageModel, OllamaRequestMessage};
use crate::tool::{OllamaTool, ToolModel};

verus! {

/// The format that the answer is to have.
#[derive(Clone, Copy, Debug, PartialEq, Eq, Structural)]
pub enum OllamaFormat {
    Json,
}

/// JSON is asked for in both JSON modes.
pub open spec fn format_model(json_mode: ModelInferenceRequestJsonMode) -> Option<OllamaFormat> {
    if json_mode is Off {
        None
    } else {
        Some(OllamaFormat::Json)
    }
}

impl OllamaFormat {
    pub fn ollama_format_from_json_mode(
        json_mode: ModelInferenceRequestJsonMode,
    ) -> (format: Option<OllamaFormat>)
        ensures
            format == format_model(json_mode),
    {
        match json_mode {
            ModelInferenceRequestJsonMode::On | ModelInferenceRequestJsonMode::Strict => Some(
                OllamaFormat::Json,
            ),
            ModelInferenceRequestJsonMode::Off => None,
        }
    }
}

/// A floating-point number in double precision, held by its bits. Two of them are equal as the
/// numbers are: zero has two forms, and what is not a number equals nothing.
#[derive(Clone, Copy, Debug)]
pub struct Double {
    pub bits: u64,
}

/// The bit that holds the sign.
pub const SIGN_BIT: u64 = 0x8000_0000_0000_0000;

/// The magnitude of infinity. Whatever is above it is not a number.
pub const INFINITY: u64 = 0x7ff0_0000_0000_0000;

impl Double {
    /// The bits without the sign.
    pub open spec fn magnitude(self) -> int {
        if self.bits >= SIGN_BIT {
            self.bits - SIGN_BIT
        } else {
            self.bits as int
        }
    }

    pub open spec fn same_number(self, other: Double) -> bool {
        &&& self.magnitude() <= INFINITY
        &&& other.magnitude() <= INFINITY
        &&& self.bits == other.bits || self.magnitude() == 0 && other.magnitude() == 0
    }

    fn unsigned(&self) -> (magnitude: u64)
        ensures
            magnitude == self.magnitude(),
    {
        if self.bits >= SIGN_BIT {
            self.bits - SIGN_BIT
        } else {
            self.bits
        }
    }
}

impl PartialEq for Double {
    fn eq(&self, other: &Double) -> (equal: bool) {
        let magnitude: u64 = self.unsigned();
        let other_magnitude: u64 = other.unsigned();
        magnitude <= INFINITY && other_magnitude <= INFINITY && (self.bits == other.bits
            || magnitude == 0 && other_magnitude == 0)
    }
}

impl vstd::std_specs::cmp::PartialEqSpecImpl for Double {
    open spec fn obeys_eq_spec() -> bool {
        true
    }

    open spec fn eq_spec(&self, other: &Double) -> bool {
        self.same_number(*other)
    }
}

/// Settings of the model.
#[derive(Debug, PartialEq)]
pub struct OllamaOptions {
    pub mirostat: Option<i32>,
    pub mirostat_eta: Option<Double>,
    pub mirostat_tau: Option<Double>,
    pub num_ctx: Option<i32>,
    pub repeat_last_n: Option<i32>,
    pub repeat_penalty: Option<Double>,
    pub temperature: Option<Double>,
    pub seed: Option<i32>,
    pub stop: Option<Vec<String>>,
    pub tfs_z: Option<Double>,
    pub num_predict: Option<i32>,
    pub top_k: Option<i32>,
    pub top_p: Option<Double>,
    pub min_p: Option<Double>,
}

impl Clone for OllamaOptions {
    fn clone(&self) -> (copy: OllamaOptions)
        ensures
            copy.stop.deep_view() == self.stop.deep_view(),
            copy == (OllamaOptions { stop: copy.stop, ..*self }),
    {
        let stop: Option<Vec<String>> = match &self.stop {
            Some(texts) => {
                let mut copied: Vec<String> = Vec::new();
                for i in 0..texts.len()
                    invariant
                        copied@ == texts@.take(i as int),
                {
                    copied.push(texts[i].clone());
                }
                assert(copied@ == texts@);
                Some(copied)
            },
            None => None,
        };
        OllamaOptions {
            mirostat: self.mirostat,
            mirostat_eta: self.mirostat_eta,
            mirostat_tau: self.mirostat_tau,
            num_ctx: self.num_ctx,
            repeat_last_n: self.repeat_last_n,
            repeat_penalty: self.repeat_penalty,
            temperature: self.temperature,
            seed: self.seed,
            stop,
            tfs_z: self.tfs_z,
            num_predict: self.num_predict,
            top_k: self.top_k,
            top_p: self.top_p,
            min_p: self.min_p,
        }
    }
}

/// The parameters of Ollama's chat interface.
#[derive(Debug, PartialEq)]
pub struct OllamaRequest<'a> {
    pub model: &'a str,
    pub messages: Vec<OllamaRequestMessage<'a>>,
    pub tools: Option<Vec<OllamaTool<'a>>>,
    pub format: Option<OllamaFormat>,
    pub options: Option<OllamaOptions>,
    pub stream: bool,
    pub keep_alive: Option<String>,
}

/// `OllamaRequest` over sequences.
pub struct RequestModel {
    pub model: Seq<char>,
    pub messages: Seq<MessageModel>,
    pub tools: Option<Seq<ToolModel>>,
    pub format: Option<OllamaFormat>,
    pub options: Option<OllamaOptions>,
    pub stream: bool,
    pub keep_alive: Option<Seq<char>>,
}

impl<'a> DeepView for OllamaRequest<'a> {
    type V = RequestModel;

    open spec fn deep_view(&self) -> RequestModel {
        RequestModel {
            model: self.model@,
            messages: self.messages.deep_view(),
            tools: self.tools.deep_view(),
            format: self.format,
            options: self.options,
            stream: self.stream,
            keep_alive: self.keep_alive.deep_view(),
        }
    }
}

/// The request for a model in a JSON mode. It carries neither messages nor tools nor options, and
/// asks for the whole answer at once.
pub open spec fn request_model(
    model_name: Seq<char>,
    json_mode: ModelInferenceRequestJsonMode,
) -> RequestModel {
    RequestModel {
        model: model_name,
        messages: Seq::empty(),
        tools: None,
        format: format_model(json_mode),
        options: None,
        stream: false,
        keep_alive: None,
    }
}

impl<'a> OllamaRequest<'a> {
    pub fn new(model_name: &'a str, request: &'a ModelInferenceRequest) -> (ollama_request: Self)
        ensures
            ollama_request.deep_view() == request_model(model_name@, request.json_mode),
    {
        let messages = tensorzero_to_ollama_messages(request.messages.as_slice());
        OllamaRequest {
            model: model_name,
            messages,
            tools: None,
            format: OllamaFormat::ollama_format_from_json_mode(request.json_mode),
            options: None,
            stream: false,
            keep_alive: None,
        }
    }
}

/// The messages that a chat request carries: none, whatever the conversation.
pub fn tensorzero_to_ollama_messages<'a>(_messages: &'a [RequestMessage]) -> (messages: Vec<
    OllamaRequestMessage<'a>,
>)
    ensures
        messages.deep_view() == Seq::<MessageModel>::empty(),
{
    Vec::new()
}

} // verus!
