//! The errors that the provider hands to the gateway.

use vstd::prelude::*;

verus! {

pub const BAD_REQUEST: u16 = 400;

pub const UNAUTHORIZED: u16 = 401;

pub const FORBIDDEN: u16 = 403;

pub const TOO_MANY_REQUESTS: u16 = 429;

/// An HTTP status code.
#[derive(Clone, Copy, Debug, PartialEq, Eq, Structural)]
pub struct StatusCode {
    pub code: u16,
}

impl StatusCode {
    /// Codes from 200 to 299.
    pub open spec fn success(self) -> bool {
        200 <= self.code < 300
    }

    /// The codes that blame the caller: bad request, unauthorized, forbidden, too many requests.
    pub open spec fn blames_client(self) -> bool {
        ||| self.code == BAD_REQUEST
        ||| self.code == UNAUTHORIZED
        ||| self.code == FORBIDDEN
        ||| self.code == TOO_MANY_REQUESTS
    }

    pub fn is_success(&self) -> (success: bool)
        ensures
            success == self.success(),
    {
        200 <= self.code && self.code < 300
    }
}

/// What went wrong. `InternalError` is the gateway's: the library only passes it on.
#[derive(Debug, PartialEq)]
pub enum ErrorDetails {
    ApiKeyMissing { provider_name: String, message: String },
    Config { message: String },
    InferenceClient {
        status_code: Option<StatusCode>,
        message: String,
        raw_request: Option<String>,
        raw_response: Option<String>,
        provider_type: String,
    },
    InferenceServer {
        message: String,
        raw_request: Option<String>,
        raw_response: Option<String>,
        provider_type: String,
    },
    InternalError { message: String },
    InvalidMessage { message: String },
    Serialization { message: String },
    UnsupportedModelProviderForBatchInference { provider_type: String },
}

impl Clone for ErrorDetails {
    fn clone(&self) -> (copy: ErrorDetails)
        ensures
            copy == *self,
    {
        match self {
            ErrorDetails::ApiKeyMissing { provider_name, message } => ErrorDetails::ApiKeyMissing {
                provider_name: provider_name.clone(),
                message: message.clone(),
            },
            ErrorDetails::Config { message } => ErrorDetails::Config { message: message.clone() },
            ErrorDetails::InferenceClient {
                status_code,
                message,
                raw_request,
                raw_response,
                provider_type,
            } => ErrorDetails::InferenceClient {
                status_code: *status_code,
                message: message.clone(),
                raw_request: raw_request.clone(),
                raw_response: raw_response.clone(),
                provider_type: provider_type.clone(),
            },
            ErrorDetails::InferenceServer { message, raw_request, raw_response, provider_type } =>
            ErrorDetails::InferenceServer {
                message: message.clone(),
                raw_request: raw_request.clone(),
                raw_response: raw_response.clone(),
                provider_type: provider_type.clone(),
            },
            ErrorDetails::InternalError { message } => ErrorDetails::InternalError {
                message: message.clone(),
            },
            ErrorDetails::InvalidMessage { message } => ErrorDetails::InvalidMessage {
                message: message.clone(),
            },
            ErrorDetails::Serialization { message } => ErrorDetails::Serialization {
                message: message.clone(),
            },
            ErrorDetails::UnsupportedModelProviderForBatchInference { provider_type } =>
            ErrorDetails::UnsupportedModelProviderForBatchInference {
                provider_type: provider_type.clone(),
            },
        }
    }
}

/// `ErrorDetails` with its texts as sequences of characters.
pub enum ErrorModel {
    ApiKeyMissing { provider_name: Seq<char>, message: Seq<char> },
    Config { message: Seq<char> },
    InferenceClient {
        status_code: Option<StatusCode>,
        message: Seq<char>,
        raw_request: Option<Seq<char>>,
        raw_response: Option<Seq<char>>,
        provider_type: Seq<char>,
    },
    InferenceServer {
        message: Seq<char>,
        raw_request: Option<Seq<char>>,
        raw_response: Option<Seq<char>>,
        provider_type: Seq<char>,
    },
    InternalError { message: Seq<char> },
    InvalidMessage { message: Seq<char> },
    Serialization { message: Seq<char> },
    UnsupportedModelProviderForBatchInference { provider_type: Seq<char> },
}

impl DeepView for ErrorDetails {
    type V = ErrorModel;

    open spec fn deep_view(&self) -> ErrorModel {
        match self {
            ErrorDetails::ApiKeyMissing { provider_name, message } => ErrorModel::ApiKeyMissing {
                provider_name: provider_name@,
                message: message@,
            },
            ErrorDetails::Config { message } => ErrorModel::Config { message: message@ },
            ErrorDetails::InferenceClient {
                status_code,
                message,
                raw_request,
                raw_response,
                provider_type,
            } => ErrorModel::InferenceClient {
                status_code: *status_code,
                message: message@,
                raw_request: raw_request.deep_view(),
                raw_response: raw_response.deep_view(),
                provider_type: provider_type@,
            },
            ErrorDetails::InferenceServer { message, raw_request, raw_response, provider_type } =>
            ErrorModel::InferenceServer {
                message: message@,
                raw_request: raw_request.deep_view(),
                raw_response: raw_response.deep_view(),
                provider_type: provider_type@,
            },
            ErrorDetails::InternalError { message } => ErrorModel::InternalError {
                message: message@,
            },
            ErrorDetails::InvalidMessage { message } => ErrorModel::InvalidMessage {
                message: message@,
            },
            ErrorDetails::Serialization { message } => ErrorModel::Serialization {
                message: message@,
            },
            ErrorDetails::UnsupportedModelProviderForBatchInference { provider_type } =>
            ErrorModel::UnsupportedModelProviderForBatchInference { provider_type: provider_type@ },
        }
    }
}

/// An error of the gateway.
#[derive(Debug, PartialEq)]
pub struct Error {
    details: ErrorDetails,
}

impl DeepView for Error {
    type V = ErrorModel;

    closed spec fn deep_view(&self) -> ErrorModel {
        self.details.deep_view()
    }
}

impl Error {
    pub fn new(details: ErrorDetails) -> (error: Error)
        ensures
            error.deep_view() == details.deep_view(),
    {
        Error { details }
    }

    pub fn get_details(&self) -> (details: &ErrorDetails)
        ensures
            details.deep_view() == self.deep_view(),
    {
        &self.details
    }
}

impl Clone for Error {
    fn clone(&self) -> (copy: Error)
        ensures
            copy == *self,
    {
        Error { details: self.details.clone() }
    }
}

impl From<ErrorDetails> for Error {
    fn from(details: ErrorDetails) -> (error: Error)
        ensures
            error.deep_view() == details.deep_view(),
    {
        Error { details }
    }
}

impl vstd::std_specs::convert::FromSpecImpl<ErrorDetails> for Error {
    open spec fn obeys_from_spec() -> bool {
        true
    }

    closed spec fn from_spec(details: ErrorDetails) -> Error {
        Error { details }
    }
}

/// What a fallible function returned, over models.
pub open spec fn outcome<T: DeepView>(result: Result<T, Error>) -> Result<T::V, ErrorModel> {
    match result {
        Ok(value) => Ok(value.deep_view()),
        Err(error) => Err(error.deep_view()),
    }
}

/// The error for a reply of `provider_type` with a failing status: the client's where the status
/// blames the caller, which also keeps the reply, and the server's otherwise.
pub open spec fn reply_error(
    response_code: StatusCode,
    response_body: Seq<char>,
    provider_type: Seq<char>,
) -> ErrorModel {
    if response_code.blames_client() {
        ErrorModel::InferenceClient {
            status_code: Some(response_code),
            message: response_body,
            raw_request: None,
            raw_response: Some(response_body),
            provider_type,
        }
    } else {
        ErrorModel::InferenceServer {
            message: response_body,
            raw_request: None,
            raw_response: None,
            provider_type,
        }
    }
}

/// Turns a reply that is not a success into an error.
pub fn handle_ollama_error(
    response_code: StatusCode,
    response_body: &str,
    provider_type: &str,
) -> (error: Error)
    ensures
        error.deep_view() == reply_error(response_code, response_body@, provider_type@),
{
    if response_code.code == BAD_REQUEST || response_code.code == UNAUTHORIZED
        || response_code.code == FORBIDDEN || response_code.code == TOO_MANY_REQUESTS {
        Error::new(
            ErrorDetails::InferenceClient {
                status_code: Some(response_code),
                message: response_body.to_owned(),
                raw_request: None,
                raw_response: Some(response_body.to_owned()),
                provider_type: provider_type.to_owned(),
            },
        )
    } else {
        Error::new(
            ErrorDetails::InferenceServer {
                message: response_body.to_owned(),
                raw_request: None,
                raw_response: None,
                provider_type: provider_type.to_owned(),
            },
        )
    }
}

} // verus!
