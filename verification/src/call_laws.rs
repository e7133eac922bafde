//! What holds of every call that is made to Ollama: which key it carries, where it goes and what it
//! asks for.

use serde_json::Value;
use vstd::prelude::*;

use crate::credentials::{
    default_api_key_location, plan_credentials, Credential, CredentialLocation, CredentialPlan,
    InferenceCredentials, OllamaCredentials,
};
use crate::error::{outcome, Error, ErrorDetails, ErrorModel, StatusCode};
use crate::inference::{ModelInferenceRequest, ModelInferenceRequestJsonMode, RequestMessage};
use crate::json::{Json, JsonModel};
use crate::laws::law_chat_request_body;
use crate::message::OllamaRequestMessage;
use crate::provider::{ChatCall, OllamaProvider};
use crate::request::{
    request_model, tensorzero_to_ollama_messages, Double, OllamaFormat, OllamaRequest,
};
use crate::wire::request_json;

verus! {

/// A key that was found and the name of a key that requests bring along are taken as they are. No
/// key and a missing one both mean that none is used. A key in a file or with an SDK is refused.
pub proof fn law_accepted_credentials<K>(
    credential: Credential<K>,
    credentials: Result<OllamaCredentials<K>, Error>,
)
    requires
        call_ensures(
            <OllamaCredentials<K> as TryFrom<Credential<K>>>::try_from,
            (credential,),
            credentials,
        ),
    ensures
        match credential {
            Credential::Static(key) => credentials matches Ok(OllamaCredentials::Static(kept))
                && kept == key,
            Credential::Dynamic(name) => credentials matches Ok(OllamaCredentials::Dynamic(kept))
                && kept@ == name@,
            Credential::NoKey => credentials matches Ok(OllamaCredentials::NoKey),
            Credential::Missing => credentials matches Ok(OllamaCredentials::NoKey),
            Credential::FileContents(_) => credentials matches Err(error) && error.deep_view() == (
            ErrorModel::Config { message: "Invalid api_key_location for Ollama provider"@ }),
            Credential::Sdk => credentials matches Err(error) && error.deep_view() == (
            ErrorModel::Config { message: "Invalid api_key_location for Ollama provider"@ }),
        },
{
}

/// The error says that the key with that name was not brought along.
pub open spec fn misses_key(error: Error, name: Seq<char>) -> bool {
    error.deep_view() == (ErrorModel::ApiKeyMissing {
        provider_name: "Ollama"@,
        message: "Dynamic api key `"@ + name + "` is missing"@,
    })
}

/// The one key is used whatever a request brings along, a named key is the one that the request
/// brings along under that name and an error if it brings none, and without credentials there is no
/// key.
pub proof fn law_key_in_use<'a, K>(
    credentials: &'a OllamaCredentials<K>,
    dynamic_api_keys: &'a InferenceCredentials<K>,
    key: Result<Option<&'a K>, Error>,
)
    requires
        call_ensures(
            OllamaCredentials::<K>::get_api_key,
            (credentials, dynamic_api_keys),
            key,
        ),
    ensures
        match *credentials {
            OllamaCredentials::Static(own) => key matches Ok(Some(used)) && *used == own,
            OllamaCredentials::Dynamic(name) => if dynamic_api_keys@.contains_key(name@) {
                key matches Ok(Some(used)) && *used == dynamic_api_keys@[name@]
            } else {
                key matches Err(error) && misses_key(error, name@)
            },
            OllamaCredentials::NoKey => key matches Ok(None),
        },
{
}

/// A new collection of keys holds none. A key that is put under a name is found there, and whatever
/// is under any other name stays as it was.
pub proof fn law_keys_are_found<'a, K>(
    fresh: &'a InferenceCredentials<K>,
    fresh_key: Option<&'a K>,
    keys: &mut InferenceCredentials<K>,
    name: String,
    key: K,
    sought: &str,
    before: Option<&'a K>,
    after: Option<&'a K>,
)
    requires
        call_ensures(InferenceCredentials::<K>::new, (), *fresh),
        call_ensures(InferenceCredentials::<K>::get, (fresh, sought), fresh_key),
        call_ensures(InferenceCredentials::<K>::get, (&*keys, sought), before),
        call_ensures(InferenceCredentials::<K>::insert, (keys, name, key), ()),
        call_ensures(InferenceCredentials::<K>::get, (&*final(keys), sought), after),
    ensures
        fresh_key is None,
        sought@ == name@ ==> (after matches Some(found) && *found == key),
        sought@ != name@ ==> match (before, after) {
            (Some(kept), Some(found)) => *found == *kept,
            (None, None) => true,
            _ => false,
        },
{
}

/// Without a configured location, the environment variable `OLLAMA_API_KEY` is looked up, once:
/// what is kept from then on is used. A configured location is looked up each time and never kept.
pub proof fn law_planned_credentials<K>(
    api_key_location: Option<CredentialLocation>,
    cached_default: Option<OllamaCredentials<K>>,
    plan: CredentialPlan<K>,
    default_location: CredentialLocation,
)
    requires
        call_ensures(plan_credentials::<K>, (api_key_location, cached_default), plan),
        call_ensures(default_api_key_location, (), default_location),
    ensures
        default_location matches CredentialLocation::Env(name) && name@ == "OLLAMA_API_KEY"@,
        match (api_key_location, cached_default) {
            (Some(configured), _) => plan matches CredentialPlan::Load {
                location,
                keep_as_default: false,
            } && location == configured,
            (None, Some(cached)) => plan matches CredentialPlan::Ready(used) && used == cached,
            (None, None) => plan matches CredentialPlan::Load {
                location: CredentialLocation::Env(name),
                keep_as_default: true,
            } && name@ == "OLLAMA_API_KEY"@,
        },
{
}

/// A provider is for the model that it was made for. Where its credentials could not be had there
/// is none, and the error says why.
pub proof fn law_provider_is_for_its_model<K>(
    model_name: String,
    credentials: Result<OllamaCredentials<K>, Error>,
    made: Result<OllamaProvider<K>, Error>,
    name: &str,
)
    requires
        call_ensures(OllamaProvider::<K>::new, (model_name, credentials), made),
        made matches Ok(provider) ==> call_ensures(
            OllamaProvider::<K>::model_name,
            (&provider,),
            name,
        ),
    ensures
        match credentials {
            Ok(_) => made is Ok && name@ == model_name@,
            Err(error) => made matches Err(reported) && reported == error,
        },
{
}

/// The key of the call is the one that the credentials stand for.
pub open spec fn carries_key<K>(
    call: ChatCall<'_, K>,
    credentials: OllamaCredentials<K>,
    dynamic_api_keys: Map<Seq<char>, K>,
) -> bool {
    match credentials {
        OllamaCredentials::Static(own) => call.api_key matches Some(used) && *used == own,
        OllamaCredentials::Dynamic(name) => call.api_key matches Some(used)
            && dynamic_api_keys.contains_key(name@) && *used == dynamic_api_keys[name@],
        OllamaCredentials::NoKey => call.api_key is None,
    }
}

/// The credentials name a key that was not brought along.
pub open spec fn lack_key<K>(
    credentials: OllamaCredentials<K>,
    dynamic_api_keys: Map<Seq<char>, K>,
) -> bool {
    credentials matches OllamaCredentials::Dynamic(name) && !dynamic_api_keys.contains_key(name@)
}

/// The error says that the body could not be written, and why.
pub open spec fn misses_body(error: Error, complaint: Seq<char>) -> bool {
    error.deep_view() == (ErrorModel::Serialization {
        message: "Error serializing Ollama request: "@ + complaint,
    })
}

/// The call goes to Ollama's chat interface on the same machine, with the body as it was written
/// and the key that the credentials stand for.
pub open spec fn is_chat_call<K>(
    call: ChatCall<'_, K>,
    body: Value,
    credentials: OllamaCredentials<K>,
    dynamic_api_keys: Map<Seq<char>, K>,
) -> bool {
    &&& call.url@ == "http://localhost:11434/api/chat"@
    &&& call.body == body
    &&& carries_key(call, credentials, dynamic_api_keys)
}

/// The call for a whole answer is right. A missing key is reported before a missing body.
pub open spec fn is_right_call<K>(
    call: Result<ChatCall<'_, K>, Error>,
    body: Result<Value, String>,
    credentials: OllamaCredentials<K>,
    dynamic_api_keys: Map<Seq<char>, K>,
) -> bool {
    if lack_key(credentials, dynamic_api_keys) {
        call matches Err(error) && misses_key(error, credentials->Dynamic_0@)
    } else {
        match body {
            Ok(body) => call matches Ok(call) && is_chat_call(
                call,
                body,
                credentials,
                dynamic_api_keys,
            ),
            Err(complaint) => call matches Err(error) && misses_body(error, complaint@),
        }
    }
}

/// The call for a streamed answer is right. A missing body is reported before a missing key.
pub open spec fn is_right_stream_call<K>(
    call: Result<ChatCall<'_, K>, Error>,
    body: Result<Value, String>,
    credentials: OllamaCredentials<K>,
    dynamic_api_keys: Map<Seq<char>, K>,
) -> bool {
    match body {
        Err(complaint) => call matches Err(error) && misses_body(error, complaint@),
        Ok(body) => if lack_key(credentials, dynamic_api_keys) {
            call matches Err(error) && misses_key(error, credentials->Dynamic_0@)
        } else {
            call matches Ok(call) && is_chat_call(call, body, credentials, dynamic_api_keys)
        },
    }
}

/// A provider composes its calls with the credentials that it was made with.
pub proof fn law_composed_calls<'a, K>(
    model_name: String,
    credentials: OllamaCredentials<K>,
    provider: &'a OllamaProvider<K>,
    body: Result<Value, String>,
    dynamic_api_keys: &'a InferenceCredentials<K>,
    call: Result<ChatCall<'a, K>, Error>,
    stream_call: Result<ChatCall<'a, K>, Error>,
)
    requires
        call_ensures(OllamaProvider::<K>::new, (model_name, Ok(credentials)), Ok(*provider)),
        call_ensures(
            OllamaProvider::<K>::compose_infer_call,
            (provider, body, dynamic_api_keys),
            call,
        ),
        call_ensures(
            OllamaProvider::<K>::compose_infer_stream_call,
            (provider, body, dynamic_api_keys),
            stream_call,
        ),
    ensures
        is_right_call(call, body, credentials, dynamic_api_keys@),
        is_right_stream_call(stream_call, body, credentials, dynamic_api_keys@),
{
}

/// The tree is the body of a chat request: it names the model, holds no messages, asks for JSON if
/// and only if the JSON mode is on or strict, asks for no stream, and says nothing else.
pub open spec fn is_chat_body(
    tree: JsonModel,
    model: Seq<char>,
    json_mode: ModelInferenceRequestJsonMode,
) -> bool {
    &&& tree matches JsonModel::Object(members)
    &&& members.contains(("model"@, JsonModel::Str(model)))
    &&& members.contains(("messages"@, JsonModel::Array(Seq::empty())))
    &&& members.contains(("stream"@, JsonModel::Bool(false)))
    &&& match json_mode {
        ModelInferenceRequestJsonMode::Off => members.len() == 3,
        _ => members.len() == 4 && members.contains(("format"@, JsonModel::Str("json"@))),
    }
}

proof fn lemma_chat_body(model: Seq<char>, json_mode: ModelInferenceRequestJsonMode)
    ensures
        is_chat_body(request_json(request_model(model, json_mode)), model, json_mode),
{
    law_chat_request_body(model, json_mode);
    let members = request_json(request_model(model, json_mode))->Object_0;
    assert(members[0] == ("model"@, JsonModel::Str(model)));
    assert(members[1] == ("messages"@, JsonModel::Array(Seq::empty())));
    assert(members[members.len() - 1] == ("stream"@, JsonModel::Bool(false)));
    if !(json_mode is Off) {
        assert(members[2] == ("format"@, JsonModel::Str("json"@)));
    }
}

/// For a request a provider has the body of a chat request for its model written, once, and makes
/// the call for a whole answer from what the writer gave.
pub proof fn law_prepared_call<'a, K, W: FnOnce(Json<'_>) -> Result<Value, String>>(
    model_name: String,
    credentials: OllamaCredentials<K>,
    provider: &'a OllamaProvider<K>,
    request: &'a ModelInferenceRequest,
    dynamic_api_keys: &'a InferenceCredentials<K>,
    write: W,
    call: Result<ChatCall<'a, K>, Error>,
)
    requires
        call_ensures(OllamaProvider::<K>::new, (model_name, Ok(credentials)), Ok(*provider)),
        call_ensures(
            OllamaProvider::<K>::prepare_infer::<W>,
            (provider, request, dynamic_api_keys, write),
            call,
        ),
    ensures
        exists|tree: Json<'a>, body: Result<Value, String>|
            {
                &&& is_chat_body(tree.deep_view(), model_name@, request.json_mode)
                &&& #[trigger] write.ensures((tree,), body)
                &&& is_right_call(call, body, credentials, dynamic_api_keys@)
            },
{
    lemma_chat_body(model_name@, request.json_mode);
    let (tree, body) = choose|tree: Json<'a>, body: Result<Value, String>|
        {
            &&& tree.deep_view() == request_json(
                request_model(provider.model(), request.json_mode),
            )
            &&& #[trigger] write.ensures((tree,), body)
            &&& outcome(call) == provider.infer_call(body, dynamic_api_keys@)
        };
    assert(is_chat_body(tree.deep_view(), model_name@, request.json_mode));
    assert(is_right_call(call, body, credentials, dynamic_api_keys@));
}

/// For a request a provider has the body of a chat request for its model written, once, and makes
/// the call for a streamed answer from what the writer gave.
pub proof fn law_prepared_stream_call<'a, K, W: FnOnce(Json<'_>) -> Result<Value, String>>(
    model_name: String,
    credentials: OllamaCredentials<K>,
    provider: &'a OllamaProvider<K>,
    request: &'a ModelInferenceRequest,
    dynamic_api_keys: &'a InferenceCredentials<K>,
    write: W,
    call: Result<ChatCall<'a, K>, Error>,
)
    requires
        call_ensures(OllamaProvider::<K>::new, (model_name, Ok(credentials)), Ok(*provider)),
        call_ensures(
            OllamaProvider::<K>::prepare_infer_stream::<W>,
            (provider, request, dynamic_api_keys, write),
            call,
        ),
    ensures
        exists|tree: Json<'a>, body: Result<Value, String>|
            {
                &&& is_chat_body(tree.deep_view(), model_name@, request.json_mode)
                &&& #[trigger] write.ensures((tree,), body)
                &&& is_right_stream_call(call, body, credentials, dynamic_api_keys@)
            },
{
    lemma_chat_body(model_name@, request.json_mode);
    let (tree, body) = choose|tree: Json<'a>, body: Result<Value, String>|
        {
            &&& tree.deep_view() == request_json(
                request_model(provider.model(), request.json_mode),
            )
            &&& #[trigger] write.ensures((tree,), body)
            &&& outcome(call) == provider.infer_stream_call(body, dynamic_api_keys@)
        };
    assert(is_chat_body(tree.deep_view(), model_name@, request.json_mode));
    assert(is_right_stream_call(call, body, credentials, dynamic_api_keys@));
}

/// The chat request asks for the model and nothing of the conversation: no messages, no tools, no
/// options, no stream. It asks for JSON if and only if the JSON mode is on or strict.
pub open spec fn is_bare_request(
    chat_request: OllamaRequest<'_>,
    model: Seq<char>,
    json_mode: ModelInferenceRequestJsonMode,
) -> bool {
    &&& chat_request.model@ == model
    &&& chat_request.messages@.len() == 0
    &&& chat_request.tools is None
    &&& match json_mode {
        ModelInferenceRequestJsonMode::Off => chat_request.format is None,
        ModelInferenceRequestJsonMode::On => chat_request.format == Some(OllamaFormat::Json),
        ModelInferenceRequestJsonMode::Strict => chat_request.format == Some(OllamaFormat::Json),
    }
    &&& chat_request.options is None
    &&& !chat_request.stream
    &&& chat_request.keep_alive is None
}

/// Every chat request is a bare one, for the model that is asked for or that the provider was made
/// for.
pub proof fn law_chat_request<'a, K>(
    model_name: &'a str,
    request: &'a ModelInferenceRequest,
    chat_request: OllamaRequest<'a>,
    own_model: String,
    credentials: OllamaCredentials<K>,
    provider: &'a OllamaProvider<K>,
    own_request: OllamaRequest<'a>,
)
    requires
        call_ensures(OllamaRequest::<'a>::new, (model_name, request), chat_request),
        call_ensures(OllamaProvider::<K>::new, (own_model, Ok(credentials)), Ok(*provider)),
        call_ensures(OllamaProvider::<K>::chat_request, (provider, request), own_request),
    ensures
        is_bare_request(chat_request, model_name@, request.json_mode),
        is_bare_request(own_request, own_model@, request.json_mode),
{
    assert(chat_request.messages.deep_view().len() == chat_request.messages@.len());
    assert(own_request.messages.deep_view().len() == own_request.messages@.len());
}

/// The format asks for JSON if and only if the JSON mode is on or strict, and no conversation gives
/// messages to a chat request.
pub proof fn law_format_and_messages<'a>(
    json_mode: ModelInferenceRequestJsonMode,
    format: Option<OllamaFormat>,
    messages: &'a [RequestMessage],
    told: Vec<OllamaRequestMessage<'a>>,
)
    requires
        call_ensures(OllamaFormat::ollama_format_from_json_mode, (json_mode,), format),
        call_ensures(tensorzero_to_ollama_messages, (messages,), told),
    ensures
        format == Some(OllamaFormat::Json) <==> json_mode is On || json_mode is Strict,
        format is None <==> json_mode is Off,
        told@.len() == 0,
{
    assert(told.deep_view().len() == told@.len());
}

/// Nothing that has to do with batches is supported, whatever is asked.
pub proof fn law_batches_are_refused<K, R, B>(
    provider: &OllamaProvider<K>,
    requests: &[ModelInferenceRequest],
    started: Result<B, Error>,
    batch_request: &R,
    polled: Result<B, Error>,
)
    requires
        call_ensures(
            OllamaProvider::<K>::start_batch_inference::<B>,
            (provider, requests),
            started,
        ),
        call_ensures(
            OllamaProvider::<K>::poll_batch_inference::<R, B>,
            (provider, batch_request),
            polled,
        ),
    ensures
        started matches Err(error) && error.deep_view() == (
        ErrorModel::UnsupportedModelProviderForBatchInference { provider_type: "ollama"@ }),
        polled matches Err(error) && error.deep_view() == (
        ErrorModel::UnsupportedModelProviderForBatchInference { provider_type: "ollama"@ }),
{
}

/// The texts are the same, or both are not there.
pub open spec fn same_text(text: Option<Seq<char>>, other: Option<String>) -> bool {
    match (text, other) {
        (Some(text), Some(other)) => text == other@,
        (None, None) => true,
        _ => false,
    }
}

/// A new error shows all that it was made of.
pub proof fn law_error_shows_everything(details: ErrorDetails, error: Error)
    requires
        call_ensures(Error::new, (details,), error),
    ensures
        match details {
            ErrorDetails::ApiKeyMissing { provider_name, message } => error.deep_view() == (
            ErrorModel::ApiKeyMissing { provider_name: provider_name@, message: message@ }),
            ErrorDetails::Config { message } => error.deep_view() == (ErrorModel::Config {
                message: message@,
            }),
            ErrorDetails::InferenceClient {
                status_code,
                message,
                raw_request,
                raw_response,
                provider_type,
            } => error.deep_view() matches ErrorModel::InferenceClient {
                status_code: shown_code,
                message: shown,
                raw_request: shown_request,
                raw_response: shown_response,
                provider_type: shown_type,
            } && {
                &&& shown_code == status_code
                &&& shown == message@
                &&& same_text(shown_request, raw_request)
                &&& same_text(shown_response, raw_response)
                &&& shown_type == provider_type@
            },
            ErrorDetails::InferenceServer { message, raw_request, raw_response, provider_type } =>
            error.deep_view() matches ErrorModel::InferenceServer {
                message: shown,
                raw_request: shown_request,
                raw_response: shown_response,
                provider_type: shown_type,
            } && {
                &&& shown == message@
                &&& same_text(shown_request, raw_request)
                &&& same_text(shown_response, raw_response)
                &&& shown_type == provider_type@
            },
            ErrorDetails::InternalError { message } => error.deep_view() == (
            ErrorModel::InternalError { message: message@ }),
            ErrorDetails::InvalidMessage { message } => error.deep_view() == (
            ErrorModel::InvalidMessage { message: message@ }),
            ErrorDetails::Serialization { message } => error.deep_view() == (
            ErrorModel::Serialization { message: message@ }),
            ErrorDetails::UnsupportedModelProviderForBatchInference { provider_type } =>
            error.deep_view() == (ErrorModel::UnsupportedModelProviderForBatchInference {
                provider_type: provider_type@,
            }),
        },
{
}

/// The details of a new error are those that it was made of.
pub proof fn law_error_keeps_its_details<'a>(
    details: ErrorDetails,
    error: &'a Error,
    kept: &'a ErrorDetails,
)
    requires
        call_ensures(Error::new, (details,), *error),
        call_ensures(Error::get_details, (error,), kept),
    ensures
        kept.deep_view() == details.deep_view(),
{
}

/// A status is a success if and only if its code is from 200 to 299.
pub proof fn law_success(status: &StatusCode, success: bool)
    requires
        call_ensures(StatusCode::is_success, (status,), success),
    ensures
        success <==> 200 <= status.code <= 299,
{
}

/// The bits are of something that is not a number.
pub open spec fn is_nan(bits: u64) -> bool {
    bits % 0x8000_0000_0000_0000 > 0x7ff0_0000_0000_0000
}

/// Floating-point numbers are equal if they have the same bits or are both zero, whatever the sign.
/// What is not a number equals nothing.
pub proof fn law_equal_numbers(number: &Double, other: &Double, equal: bool)
    requires
        call_ensures(<Double as PartialEq>::eq, (number, other), equal),
    ensures
        equal <==> {
            &&& !is_nan(number.bits)
            &&& !is_nan(other.bits)
            &&& number.bits == other.bits || number.bits % 0x8000_0000_0000_0000 == 0 && other.bits
                % 0x8000_0000_0000_0000 == 0
        },
{
}

} // verus!
