//! The provider: what to send to Ollama for a request, and what to make of the reply.

use serde_json::Value;
use std::time::Duration;
use vstd::prelude::*;

use crate::credentials::{InferenceCredentials, OllamaCredentials, PROVIDER_TYPE};
use crate::error::{
    handle_ollama_error, outcome, reply_error, Error, ErrorDetails, ErrorModel, StatusCode,
};
use crate::inference::{
    Latency, ModelInferenceRequest, ProviderInferenceResponse, ResponseModel,
};
use crate::json::Json;
use crate::request::{request_model, OllamaRequest};
use crate::response::{response_model, OllamaResponse, OllamaResponseWithMetadata};
use crate::text::join;
use crate::wire::request_json;

verus! {

/// Where Ollama listens for chat requests.
pub const CHAT_URL: &'static str = "http://localhost:11434/api/chat";

/// A model that Ollama serves, with the credentials for it.
#[derive(Debug)]
pub struct OllamaProvider<K> {
    model_name: String,
    credentials: OllamaCredentials<K>,
}

/// A request that is ready to be sent: a POST of `body` to `url`, with the key, if there is one,
/// as the bearer token.
#[derive(Debug)]
pub struct ChatCall<'a, K> {
    pub url: String,
    pub api_key: Option<&'a K>,
    pub body: Value,
}

/// `ChatCall` over models.
#[verifier::reject_recursive_types(K)]
pub struct CallModel<K> {
    pub url: Seq<char>,
    pub api_key: Option<K>,
    pub body: Value,
}

impl<'a, K> DeepView for ChatCall<'a, K> {
    type V = CallModel<K>;

    open spec fn deep_view(&self) -> CallModel<K> {
        CallModel {
            url: self.url@,
            api_key: match self.api_key {
                Some(key) => Some(*key),
                None => None,
            },
            body: self.body,
        }
    }
}

/// The error for a request body that could not be written.
pub open spec fn serialization_error(complaint: Seq<char>) -> ErrorModel {
    ErrorModel::Serialization { message: "Error serializing Ollama request: "@ + complaint }
}

fn written_body(body: Result<Value, String>) -> (written: Result<Value, Error>)
    ensures
        match (body, written) {
            (Ok(body), Ok(written)) => written == body,
            (Err(complaint), Err(error)) => error.deep_view() == serialization_error(complaint@),
            _ => false,
        },
{
    match body {
        Ok(body) => Ok(body),
        Err(complaint) => Err(
            Error::new(
                ErrorDetails::Serialization {
                    message: join("Error serializing Ollama request: ", complaint.as_str()),
                },
            ),
        ),
    }
}

/// The error for a reply that could not be received or understood.
pub open spec fn server_error(
    message: Seq<char>,
    raw_request: Seq<char>,
    raw_response: Option<Seq<char>>,
) -> ErrorModel {
    ErrorModel::InferenceServer {
        message,
        raw_request: Some(raw_request),
        raw_response,
        provider_type: PROVIDER_TYPE@,
    }
}

/// What the text of a reply comes to: the text, if the status is a success; the error that the
/// status and the text stand for, if it is not; and an error of its own where the text could not
/// be received.
pub open spec fn received_reply(
    status: StatusCode,
    text: Result<String, String>,
    raw_request: Seq<char>,
) -> Result<Seq<char>, ErrorModel> {
    match (status.success(), text) {
        (true, Ok(text)) => Ok(text@),
        (true, Err(complaint)) => Err(
            server_error("Error parsing response: "@ + complaint@, raw_request, None),
        ),
        (false, Ok(text)) => Err(reply_error(status, text@, PROVIDER_TYPE@)),
        (false, Err(complaint)) => Err(
            server_error("Error parsing error response: "@ + complaint@, raw_request, None),
        ),
    }
}

/// Takes the text of a reply, or the transport's complaint that there is none.
pub fn receive_reply(
    status: StatusCode,
    text: Result<String, String>,
    raw_request: &str,
) -> (received: Result<String, Error>)
    ensures
        outcome(received) == received_reply(status, text, raw_request@),
{
    if status.is_success() {
        match text {
            Ok(text) => Ok(text),
            Err(complaint) => Err(
                Error::new(
                    ErrorDetails::InferenceServer {
                        message: join("Error parsing response: ", complaint.as_str()),
                        raw_request: Some(raw_request.to_owned()),
                        raw_response: None,
                        provider_type: PROVIDER_TYPE.to_owned(),
                    },
                ),
            ),
        }
    } else {
        match text {
            Ok(text) => Err(handle_ollama_error(status, text.as_str(), PROVIDER_TYPE)),
            Err(complaint) => Err(
                Error::new(
                    ErrorDetails::InferenceServer {
                        message: join("Error parsing error response: ", complaint.as_str()),
                        raw_request: Some(raw_request.to_owned()),
                        raw_response: None,
                        provider_type: PROVIDER_TYPE.to_owned(),
                    },
                ),
            ),
        }
    }
}

/// What a received reply comes to: the answer that was read from it, or an error that keeps the
/// text that could not be read.
pub open spec fn interpreted_reply(
    response: Result<OllamaResponse, String>,
    raw_response: Seq<char>,
    response_time: Duration,
    raw_request: Seq<char>,
    request: ModelInferenceRequest,
) -> Result<ResponseModel, ErrorModel> {
    match response {
        Ok(response) => Ok(
            response_model(
                response,
                raw_response,
                Latency::NonStreaming { response_time },
                raw_request,
                request,
            ),
        ),
        Err(complaint) => Err(
            server_error(
                "Error parsing response: "@ + complaint@,
                raw_request,
                Some(raw_response),
            ),
        ),
    }
}

/// Takes what reading the text `raw_response` as an answer gave: the answer or the reader's
/// complaint.
pub fn interpret_reply(
    response: Result<OllamaResponse, String>,
    raw_response: String,
    response_time: Duration,
    raw_request: String,
    request: &ModelInferenceRequest,
) -> (interpreted: Result<ProviderInferenceResponse, Error>)
    ensures
        outcome(interpreted) == interpreted_reply(
            response,
            raw_response@,
            response_time,
            raw_request@,
            *request,
        ),
{
    match response {
        Ok(response) => ProviderInferenceResponse::try_from(
            OllamaResponseWithMetadata {
                response,
                raw_response,
                latency: Latency::NonStreaming { response_time },
                raw_request,
                generic_request: request,
            },
        ),
        Err(complaint) => Err(
            Error::new(
                ErrorDetails::InferenceServer {
                    message: join("Error parsing response: ", complaint.as_str()),
                    raw_request: Some(raw_request),
                    raw_response: Some(raw_response),
                    provider_type: PROVIDER_TYPE.to_owned(),
                },
            ),
        ),
    }
}

/// The error for everything that has to do with batches.
pub open spec fn batch_error() -> ErrorModel {
    ErrorModel::UnsupportedModelProviderForBatchInference { provider_type: PROVIDER_TYPE@ }
}

/// Goes from a reply to the answer. `read` reads a text as an answer of Ollama; it is asked only
/// about the text of a reply whose status is a success.
pub fn finish_infer<R: FnOnce(&str) -> Result<OllamaResponse, String>>(
    status: StatusCode,
    text: Result<String, String>,
    response_time: Duration,
    raw_request: String,
    request: &ModelInferenceRequest,
    read: R,
) -> (answer: Result<ProviderInferenceResponse, Error>)
    requires
        status.success() && text is Ok ==> forall|raw_response: &str|
            raw_response@ == text->Ok_0@ ==> #[trigger] read.requires((raw_response,)),
    ensures
        match received_reply(status, text, raw_request@) {
            Err(error) => outcome(answer) == Err::<ResponseModel, ErrorModel>(error),
            Ok(received) => exists|raw_response: &str, response: Result<OllamaResponse, String>|
                {
                    &&& raw_response@ == received
                    &&& #[trigger] read.ensures((raw_response,), response)
                    &&& outcome(answer) == interpreted_reply(
                        response,
                        received,
                        response_time,
                        raw_request@,
                        *request,
                    )
                },
        },
{
    match receive_reply(status, text, raw_request.as_str()) {
        Ok(raw_response) => {
            let response = read(raw_response.as_str());
            interpret_reply(response, raw_response, response_time, raw_request, request)
        },
        Err(error) => Err(error),
    }
}

impl<K> OllamaProvider<K> {
    /// The name of the model.
    pub closed spec fn model(self) -> Seq<char> {
        self.model_name@
    }

    pub closed spec fn credentials(self) -> OllamaCredentials<K> {
        self.credentials
    }

    /// A provider for a model, with the credentials that were found for it. Where none could be
    /// had there is no provider.
    pub fn new(model_name: String, credentials: Result<OllamaCredentials<K>, Error>) -> (provider:
        Result<Self, Error>)
        ensures
            match (credentials, provider) {
                (Ok(credentials), Ok(provider)) => {
                    &&& provider.model() == model_name@
                    &&& provider.credentials() == credentials
                },
                (Err(error), Err(reported)) => reported == error,
                _ => false,
            },
    {
        match credentials {
            Ok(credentials) => Ok(OllamaProvider { model_name, credentials }),
            Err(error) => Err(error),
        }
    }

    pub fn model_name(&self) -> (name: &str)
        ensures
            name@ == self.model(),
    {
        self.model_name.as_str()
    }

    /// What to send for a request. The same is sent for a whole answer and for a streamed one.
    pub fn chat_request<'b>(&'b self, request: &'b ModelInferenceRequest) -> (chat_request:
        OllamaRequest<'b>)
        ensures
            chat_request.deep_view() == request_model(self.model(), request.json_mode),
    {
        OllamaRequest::new(self.model_name.as_str(), request)
    }

    /// The call for a whole answer. A missing key is reported before a body that could not be
    /// written.
    pub open spec fn infer_call(
        self,
        body: Result<Value, String>,
        dynamic_api_keys: Map<Seq<char>, K>,
    ) -> Result<CallModel<K>, ErrorModel> {
        match (self.credentials().api_key(dynamic_api_keys), body) {
            (Err(error), _) => Err(error),
            (Ok(_), Err(complaint)) => Err(serialization_error(complaint@)),
            (Ok(api_key), Ok(body)) => Ok(CallModel { url: CHAT_URL@, api_key, body }),
        }
    }

    /// The call for a streamed answer. A body that could not be written is reported before a
    /// missing key.
    pub open spec fn infer_stream_call(
        self,
        body: Result<Value, String>,
        dynamic_api_keys: Map<Seq<char>, K>,
    ) -> Result<CallModel<K>, ErrorModel> {
        match (body, self.credentials().api_key(dynamic_api_keys)) {
            (Err(complaint), _) => Err(serialization_error(complaint@)),
            (Ok(_), Err(error)) => Err(error),
            (Ok(body), Ok(api_key)) => Ok(CallModel { url: CHAT_URL@, api_key, body }),
        }
    }

    /// The call for a whole answer, given the chat request as a JSON value or the writer's
    /// complaint.
    pub fn compose_infer_call<'a>(
        &'a self,
        body: Result<Value, String>,
        dynamic_api_keys: &'a InferenceCredentials<K>,
    ) -> (call: Result<ChatCall<'a, K>, Error>)
        ensures
            outcome(call) == self.infer_call(body, dynamic_api_keys@),
    {
        let api_key: Option<&'a K> = match self.credentials.get_api_key(dynamic_api_keys) {
            Ok(api_key) => api_key,
            Err(error) => {
                return Err(error);
            },
        };
        match written_body(body) {
            Ok(body) => Ok(ChatCall { url: CHAT_URL.to_owned(), api_key, body }),
            Err(error) => Err(error),
        }
    }

    /// The call for a streamed answer, given the chat request as a JSON value or the writer's
    /// complaint.
    pub fn compose_infer_stream_call<'a>(
        &'a self,
        body: Result<Value, String>,
        dynamic_api_keys: &'a InferenceCredentials<K>,
    ) -> (call: Result<ChatCall<'a, K>, Error>)
        ensures
            outcome(call) == self.infer_stream_call(body, dynamic_api_keys@),
    {
        let body: Value = match written_body(body) {
            Ok(body) => body,
            Err(error) => {
                return Err(error);
            },
        };
        match self.credentials.get_api_key(dynamic_api_keys) {
            Ok(api_key) => Ok(ChatCall { url: CHAT_URL.to_owned(), api_key, body }),
            Err(error) => Err(error),
        }
    }

    /// Goes from a request to the call for a whole answer. `write` turns the tree of the
    /// chat request into a JSON value.
    pub fn prepare_infer<'a, W: FnOnce(Json<'_>) -> Result<Value, String>>(
        &'a self,
        request: &'a ModelInferenceRequest,
        dynamic_api_keys: &'a InferenceCredentials<K>,
        write: W,
    ) -> (call: Result<ChatCall<'a, K>, Error>)
        requires
            forall|tree: Json<'a>|
                tree.deep_view() == request_json(request_model(self.model(), request.json_mode))
                    ==> #[trigger] write.requires((tree,)),
        ensures
            exists|tree: Json<'a>, body: Result<Value, String>|
                {
                    &&& tree.deep_view() == request_json(
                        request_model(self.model(), request.json_mode),
                    )
                    &&& #[trigger] write.ensures((tree,), body)
                    &&& outcome(call) == self.infer_call(body, dynamic_api_keys@)
                },
    {
        let chat_request = self.chat_request(request);
        let body = write(chat_request.serialize());
        self.compose_infer_call(body, dynamic_api_keys)
    }

    /// Goes from a request to the call for a streamed answer. `write` turns the tree of the
    /// chat request into a JSON value.
    pub fn prepare_infer_stream<'a, W: FnOnce(Json<'_>) -> Result<Value, String>>(
        &'a self,
        request: &'a ModelInferenceRequest,
        dynamic_api_keys: &'a InferenceCredentials<K>,
        write: W,
    ) -> (call: Result<ChatCall<'a, K>, Error>)
        requires
            forall|tree: Json<'a>|
                tree.deep_view() == request_json(request_model(self.model(), request.json_mode))
                    ==> #[trigger] write.requires((tree,)),
        ensures
            exists|tree: Json<'a>, body: Result<Value, String>|
                {
                    &&& tree.deep_view() == request_json(
                        request_model(self.model(), request.json_mode),
                    )
                    &&& #[trigger] write.ensures((tree,), body)
                    &&& outcome(call) == self.infer_stream_call(body, dynamic_api_keys@)
                },
    {
        let chat_request = self.chat_request(request);
        let body = write(chat_request.serialize());
        self.compose_infer_stream_call(body, dynamic_api_keys)
    }

    /// Ollama has no batch interface, so a batch is always refused.
    pub fn start_batch_inference<B>(&self, _requests: &[ModelInferenceRequest]) -> (started: Result<
        B,
        Error,
    >)
        ensures
            started matches Err(error) && error.deep_view() == batch_error(),
    {
        Err(
            Error::new(
                ErrorDetails::UnsupportedModelProviderForBatchInference {
                    provider_type: PROVIDER_TYPE.to_owned(),
                },
            ),
        )
    }

    /// Ollama has no batch interface, so there is never a batch to ask about.
    pub fn poll_batch_inference<R, B>(&self, _batch_request: &R) -> (polled: Result<B, Error>)
        ensures
            polled matches Err(error) && error.deep_view() == batch_error(),
    {
        Err(
            Error::new(
                ErrorDetails::UnsupportedModelProviderForBatchInference {
                    provider_type: PROVIDER_TYPE.to_owned(),
                },
            ),
        )
    }
}

} // verus!
