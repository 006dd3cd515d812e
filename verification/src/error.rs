//! The error type that every fallible operation of the crate returns.

use crate::text::{decimal, decimal_of};
use vstd::prelude::*;
use vstd::string::StringExecFns;

verus! {

/// What can go wrong when talking to the Tapsilat API.
#[derive(Debug, Clone)]
pub enum TapsilatError {
    /// The transport failed; the text is the transport's own report.
    Http(String),
    /// Reading or writing a body failed.
    Serialization(String),
    /// The API answered with something that has not the expected shape.
    InvalidResponse(String),
    /// The API answered with a status of 400 or above.
    ApiError {
        /// The HTTP status of the answer.
        status_code: u16,
        /// The message found in the answer's body.
        message: String,
    },
    /// The configuration or the request cannot be used as it is.
    ConfigError(String),
    /// A value handed in by the caller failed a local check.
    ValidationError(String),
}

/// The mathematical value of a [`TapsilatError`]: the variant with its texts.
pub enum ErrorModel {
    Http(Seq<char>),
    Serialization(Seq<char>),
    InvalidResponse(Seq<char>),
    ApiError { status_code: u16, message: Seq<char> },
    ConfigError(Seq<char>),
    ValidationError(Seq<char>),
}

impl ErrorModel {
    /// The line that describes the error to a person.
    pub open spec fn text(self) -> Seq<char> {
        match self {
            ErrorModel::Http(m) => "HTTP error: "@ + m,
            ErrorModel::Serialization(m) => "Serialization error: "@ + m,
            ErrorModel::InvalidResponse(m) => "Invalid response: "@ + m,
            ErrorModel::ApiError { status_code, message } => "API error ("@ + decimal_of(
                status_code as nat,
            ) + "): "@ + message,
            ErrorModel::ConfigError(m) => "Configuration error: "@ + m,
            ErrorModel::ValidationError(m) => "Validation error: "@ + m,
        }
    }
}

impl View for TapsilatError {
    type V = ErrorModel;

    open spec fn view(&self) -> ErrorModel {
        match *self {
            TapsilatError::Http(m) => ErrorModel::Http(m@),
            TapsilatError::Serialization(m) => ErrorModel::Serialization(m@),
            TapsilatError::InvalidResponse(m) => ErrorModel::InvalidResponse(m@),
            TapsilatError::ApiError { status_code, message } => ErrorModel::ApiError {
                status_code,
                message: message@,
            },
            TapsilatError::ConfigError(m) => ErrorModel::ConfigError(m@),
            TapsilatError::ValidationError(m) => ErrorModel::ValidationError(m@),
        }
    }
}

impl TapsilatError {
    /// A validation error with the given message.
    pub fn validation(message: &str) -> (e: TapsilatError)
        ensures
            e@ == ErrorModel::ValidationError(message@),
    {
        TapsilatError::ValidationError(String::from_str(message))
    }

    /// A configuration error with the given message.
    pub fn config(message: &str) -> (e: TapsilatError)
        ensures
            e@ == ErrorModel::ConfigError(message@),
    {
        TapsilatError::ConfigError(String::from_str(message))
    }

    /// An invalid-response error with the given message.
    pub fn invalid_response(message: &str) -> (e: TapsilatError)
        ensures
            e@ == ErrorModel::InvalidResponse(message@),
    {
        TapsilatError::InvalidResponse(String::from_str(message))
    }

    /// The line that describes the error to a person.
    pub fn to_text(&self) -> (s: String)
        ensures
            s@ == self@.text(),
    {
        match self {
            TapsilatError::Http(m) => String::from_str("HTTP error: ").concat(m.as_str()),
            TapsilatError::Serialization(m) => String::from_str("Serialization error: ").concat(
                m.as_str(),
            ),
            TapsilatError::InvalidResponse(m) => String::from_str("Invalid response: ").concat(
                m.as_str(),
            ),
            TapsilatError::ApiError { status_code, message } => {
                let code = decimal(*status_code as u128);
                String::from_str("API error (").concat(code.as_str()).concat("): ").concat(
                    message.as_str(),
                )
            },
            TapsilatError::ConfigError(m) => String::from_str("Configuration error: ").concat(
                m.as_str(),
            ),
            TapsilatError::ValidationError(m) => String::from_str("Validation error: ").concat(
                m.as_str(),
            ),
        }
    }
}

} // verus!
