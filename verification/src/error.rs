//! Gateway error taxonomy: backend request failures, JSON decode
//! failures, streaming failures, and internal errors, each mapped to an
//! HTTP status and a caller-visible message.

use vstd::prelude::*;
use vstd::string::StringExecFns;

verus! {

#[derive(Debug)]
pub enum AppError {
    /// The outbound backend call failed before a response arrived.
    RequestError { message: String, url: String },
    /// A structured payload could not be decoded.
    JsonError { context: String },
    /// A started event stream failed and had to be terminated.
    StreamingError { message: String, endpoint: String },
    /// Any other failure inside the gateway.
    InternalError { context: String },
}

impl AppError {
    pub fn request_error(url: String, message: String) -> (r: AppError)
        ensures
            r matches AppError::RequestError { message: m, url: u } && m == message && u == url,
    {
        AppError::RequestError { message, url }
    }

    pub fn json_error(context: &str) -> (r: AppError)
        ensures
            r matches AppError::JsonError { context: c } && c@ == context@,
    {
        AppError::JsonError { context: context.to_owned() }
    }

    pub fn streaming_error(message: String, endpoint: &str) -> (r: AppError)
        ensures
            r matches AppError::StreamingError { message: m, endpoint: e } && m == message && e@
                == endpoint@,
    {
        AppError::StreamingError { message, endpoint: endpoint.to_owned() }
    }

    pub fn internal_error(context: &str) -> (r: AppError)
        ensures
            r matches AppError::InternalError { context: c } && c@ == context@,
    {
        AppError::InternalError { context: context.to_owned() }
    }

    /// HTTP status the error surfaces as: bad gateway for a failed
    /// backend call, bad request for a decode failure, internal server
    /// error otherwise.
    pub open spec fn status_spec(&self) -> u16 {
        match self {
            AppError::RequestError { .. } => 502,
            AppError::JsonError { .. } => 400,
            AppError::StreamingError { .. } => 500,
            AppError::InternalError { .. } => 500,
        }
    }

    pub fn status_code(&self) -> (r: u16)
        ensures
            r == self.status_spec(),
    {
        match self {
            AppError::RequestError { .. } => 502,
            AppError::JsonError { .. } => 400,
            AppError::StreamingError { .. } => 500,
            AppError::InternalError { .. } => 500,
        }
    }

    /// Label classifying the error for the metrics sink.
    pub fn error_type(&self) -> (r: &'static str)
        ensures
            match self {
                AppError::RequestError { .. } => r@ == "request"@,
                AppError::JsonError { .. } => r@ == "json"@,
                AppError::StreamingError { .. } => r@ == "streaming"@,
                AppError::InternalError { .. } => r@ == "internal"@,
            },
    {
        match self {
            AppError::RequestError { .. } => "request",
            AppError::JsonError { .. } => "json",
            AppError::StreamingError { .. } => "streaming",
            AppError::InternalError { .. } => "internal",
        }
    }

    /// The message shown to the caller in the error body.
    pub open spec fn response_message_spec(&self) -> Seq<char> {
        match self {
            AppError::RequestError { message, url } => {
                "Backend request failed: "@ + message@ + " (URL: "@ + url@ + ")"@
            },
            AppError::JsonError { context } => "JSON parsing error: "@ + context@,
            AppError::StreamingError { message, endpoint } => {
                "Streaming error: "@ + message@ + " (endpoint: "@ + endpoint@ + ")"@
            },
            AppError::InternalError { context } => "Internal server error: "@ + context@,
        }
    }

    pub fn response_message(&self) -> (r: String)
        ensures
            r@ == self.response_message_spec(),
    {
        match self {
            AppError::RequestError { message, url } => {
                let mut s = "Backend request failed: ".to_owned();
                s.append(message.as_str());
                s.append(" (URL: ");
                s.append(url.as_str());
                s.append(")");
                s
            },
            AppError::JsonError { context } => {
                let mut s = "JSON parsing error: ".to_owned();
                s.append(context.as_str());
                s
            },
            AppError::StreamingError { message, endpoint } => {
                let mut s = "Streaming error: ".to_owned();
                s.append(message.as_str());
                s.append(" (endpoint: ");
                s.append(endpoint.as_str());
                s.append(")");
                s
            },
            AppError::InternalError { context } => {
                let mut s = "Internal server error: ".to_owned();
                s.append(context.as_str());
                s
            },
        }
    }
}

} // verus!
