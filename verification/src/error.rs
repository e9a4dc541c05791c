//! Application errors, their user-facing text, and the error payload that the
//! front end receives.

use vstd::prelude::*;

use crate::text::{concat, owned};

verus! {

/// Why an HTTP request to a provider failed.
#[derive(Debug, Clone, Copy, PartialEq, Eq, Structural)]
pub enum HttpFailure {
    /// The connection could not be established.
    Connect,
    /// The request timed out.
    Timeout,
    /// Any other transport failure.
    Other,
}

/// Everything that can go wrong in Taurus.
#[derive(Debug)]
pub enum AppError {
    Validation(String),
    ProviderNotFound(String),
    ProviderUnavailable(String),
    HttpClient(HttpFailure),
    ProviderProtocol(String),
    Config(String),
    EventEmit(String),
    WebTool(String),
}

/// The error payload sent to the front end.
#[derive(Debug)]
pub struct ApiError {
    pub code: String,
    pub message: String,
}

/// The mathematical content of an error.
pub enum ErrorModel {
    Validation(Seq<char>),
    ProviderNotFound(Seq<char>),
    ProviderUnavailable(Seq<char>),
    HttpClient(HttpFailure),
    ProviderProtocol(Seq<char>),
    Config(Seq<char>),
    EventEmit(Seq<char>),
    WebTool(Seq<char>),
}

impl DeepView for AppError {
    type V = ErrorModel;

    open spec fn deep_view(&self) -> ErrorModel {
        match self {
            AppError::Validation(m) => ErrorModel::Validation(m@),
            AppError::ProviderNotFound(m) => ErrorModel::ProviderNotFound(m@),
            AppError::ProviderUnavailable(m) => ErrorModel::ProviderUnavailable(m@),
            AppError::HttpClient(k) => ErrorModel::HttpClient(*k),
            AppError::ProviderProtocol(m) => ErrorModel::ProviderProtocol(m@),
            AppError::Config(m) => ErrorModel::Config(m@),
            AppError::EventEmit(m) => ErrorModel::EventEmit(m@),
            AppError::WebTool(m) => ErrorModel::WebTool(m@),
        }
    }
}

/// The display text of an error, from its content.
pub open spec fn error_model_text(error: ErrorModel) -> Seq<char> {
    match error {
        ErrorModel::Validation(m) => "Validation error: "@ + m,
        ErrorModel::ProviderNotFound(p) => "Unknown provider: "@ + p,
        ErrorModel::ProviderUnavailable(m) => "Provider is unavailable: "@ + m,
        ErrorModel::HttpClient(_) => "Provider request failed"@,
        ErrorModel::ProviderProtocol(m) => "Provider returned invalid data: "@ + m,
        ErrorModel::Config(m) => "Invalid configuration: "@ + m,
        ErrorModel::EventEmit(m) => "Internal stream delivery error: "@ + m,
        ErrorModel::WebTool(m) => "Web tool failed: "@ + m,
    }
}

/// The display text of an error.
pub open spec fn error_text(error: AppError) -> Seq<char> {
    match error {
        AppError::Validation(m) => "Validation error: "@ + m@,
        AppError::ProviderNotFound(p) => "Unknown provider: "@ + p@,
        AppError::ProviderUnavailable(m) => "Provider is unavailable: "@ + m@,
        AppError::HttpClient(_) => "Provider request failed"@,
        AppError::ProviderProtocol(m) => "Provider returned invalid data: "@ + m@,
        AppError::Config(m) => "Invalid configuration: "@ + m@,
        AppError::EventEmit(m) => "Internal stream delivery error: "@ + m@,
        AppError::WebTool(m) => "Web tool failed: "@ + m@,
    }
}

/// The machine-readable code the front end receives for an error.
pub open spec fn api_code(error: AppError) -> Seq<char> {
    match error {
        AppError::Validation(_) => "validation_error"@,
        AppError::ProviderNotFound(_) => "provider_not_found"@,
        AppError::ProviderUnavailable(_) => "provider_unavailable"@,
        AppError::HttpClient(_) => "provider_request_error"@,
        AppError::ProviderProtocol(_) => "provider_protocol_error"@,
        AppError::Config(_) => "config_error"@,
        AppError::EventEmit(_) => "stream_event_error"@,
        AppError::WebTool(_) => "web_tool_error"@,
    }
}

/// The human-readable message the front end receives for an error.
pub open spec fn api_message(error: AppError) -> Seq<char> {
    match error {
        AppError::Validation(m) => m@,
        AppError::ProviderNotFound(p) => "Provider '"@ + p@ + "' is not configured."@,
        AppError::ProviderUnavailable(m) => m@,
        AppError::HttpClient(HttpFailure::Connect) =>
            "Could not reach the provider. Check that it is running and the URL is correct."@,
        AppError::HttpClient(HttpFailure::Timeout) =>
            "The provider request timed out. Try again in a moment."@,
        AppError::HttpClient(HttpFailure::Other) =>
            "The provider request failed. Check provider logs for more details."@,
        AppError::ProviderProtocol(m) => m@,
        AppError::Config(m) => m@,
        AppError::EventEmit(m) => m@,
        AppError::WebTool(m) => m@,
    }
}

impl AppError {
    /// The display text of this error.
    pub fn message(&self) -> (res: String)
        ensures
            res@ == error_text(*self),
            res@ == error_model_text(self.deep_view()),
    {
        match self {
            AppError::Validation(m) => concat("Validation error: ", m.as_str()),
            AppError::ProviderNotFound(p) => concat("Unknown provider: ", p.as_str()),
            AppError::ProviderUnavailable(m) => concat("Provider is unavailable: ", m.as_str()),
            AppError::HttpClient(_) => owned("Provider request failed"),
            AppError::ProviderProtocol(m) => concat("Provider returned invalid data: ", m.as_str()),
            AppError::Config(m) => concat("Invalid configuration: ", m.as_str()),
            AppError::EventEmit(m) => concat("Internal stream delivery error: ", m.as_str()),
            AppError::WebTool(m) => concat("Web tool failed: ", m.as_str()),
        }
    }

    /// A copy of this error.
    pub fn copy(&self) -> (res: AppError)
        ensures
            res.deep_view() == self.deep_view(),
            error_text(res) == error_text(*self),
            api_code(res) == api_code(*self),
            api_message(res) == api_message(*self),
    {
        match self {
            AppError::Validation(m) => AppError::Validation(m.clone()),
            AppError::ProviderNotFound(p) => AppError::ProviderNotFound(p.clone()),
            AppError::ProviderUnavailable(m) => AppError::ProviderUnavailable(m.clone()),
            AppError::HttpClient(kind) => AppError::HttpClient(*kind),
            AppError::ProviderProtocol(m) => AppError::ProviderProtocol(m.clone()),
            AppError::Config(m) => AppError::Config(m.clone()),
            AppError::EventEmit(m) => AppError::EventEmit(m.clone()),
            AppError::WebTool(m) => AppError::WebTool(m.clone()),
        }
    }
}

impl ApiError {
    /// The payload the front end receives for an error.
    pub fn from_error(error: AppError) -> (res: ApiError)
        ensures
            res.code@ == api_code(error),
            res.message@ == api_message(error),
    {
        match error {
            AppError::Validation(message) => ApiError { code: owned("validation_error"), message },
            AppError::ProviderNotFound(provider) => ApiError {
                code: owned("provider_not_found"),
                message: concat(
                    concat("Provider '", provider.as_str()).as_str(),
                    "' is not configured.",
                ),
            },
            AppError::ProviderUnavailable(message) => ApiError {
                code: owned("provider_unavailable"),
                message,
            },
            AppError::HttpClient(kind) => api_http_client_error(kind),
            AppError::ProviderProtocol(message) => ApiError {
                code: owned("provider_protocol_error"),
                message,
            },
            AppError::Config(message) => ApiError { code: owned("config_error"), message },
            AppError::EventEmit(message) => ApiError { code: owned("stream_event_error"), message },
            AppError::WebTool(message) => ApiError { code: owned("web_tool_error"), message },
        }
    }
}

fn api_http_client_error(kind: HttpFailure) -> (res: ApiError)
    ensures
        res.code@ == api_code(AppError::HttpClient(kind)),
        res.message@ == api_message(AppError::HttpClient(kind)),
{
    let message = match kind {
        HttpFailure::Connect => owned(
            "Could not reach the provider. Check that it is running and the URL is correct.",
        ),
        HttpFailure::Timeout => owned("The provider request timed out. Try again in a moment."),
        HttpFailure::Other => owned(
            "The provider request failed. Check provider logs for more details.",
        ),
    };
    ApiError { code: owned("provider_request_error"), message }
}

} // verus!
