//! Error types shared by the whole library.
//!
//! Misuse of a transfer handle and violations of the declared transfer size
//! are reported as typed errors rather than panics, so callers can recover.

use vstd::prelude::*;
use crate::json::{get_string_field, json_rep, obj_field, obj_str_field, JsonRep};

verus! {

/// The error code and message a response body reports, when it reports one:
/// a string field `code`, and a string field `value` inside an object field
/// `message`.
pub open spec fn service_error_fields(rep: JsonRep) -> Option<(Seq<char>, Seq<char>)> {
    match obj_str_field(rep, "code"@) {
        Some(code) => match obj_field(rep, "message"@) {
            Some(message) => match obj_str_field(message, "value"@) {
                Some(msg) => Some((code, msg)),
                None => None,
            },
            None => None,
        },
        None => None,
    }
}

/// Error code and message reported by the remote API inside a response body.
#[derive(Debug, Clone, PartialEq, Eq)]
pub struct ServiceError {
    pub code: Option<String>,
    pub message: String,
}

impl ServiceError {
    /// Construct a new service error from an optional code and a message.
    pub fn new(code: Option<String>, message: String) -> (r: ServiceError)
        ensures
            r.code == code,
            r.message == message,
    {
        ServiceError { code, message }
    }

    /// The error code, when the response carried one.
    pub fn code(&self) -> (r: &Option<String>)
        ensures
            r == self.code,
    {
        &self.code
    }

    /// The error message.
    pub fn message(&self) -> (r: &String)
        ensures
            r == self.message,
    {
        &self.message
    }

    /// Read the error a response body reports, when it reports one: its
    /// `code` string together with the `value` string of its `message`
    /// object.
    pub fn from_json(value: &serde_json::Value) -> (r: Option<ServiceError>)
        ensures
            match service_error_fields(json_rep(*value)) {
                Some(f) => r matches Some(e) && e.code matches Some(c) && c@ == f.0 && e.message@
                    == f.1,
                None => r is None,
            },
    {
        let code = match get_string_field(value, "code") {
            Some(code) => code,
            None => {
                return None;
            },
        };
        let message = match crate::json::value_get(value, "message") {
            Some(message) => message,
            None => {
                return None;
            },
        };
        match get_string_field(message, "value") {
            Some(msg) => Some(ServiceError { code: Some(code), message: msg }),
            None => None,
        }
    }
}

/// Error type used throughout the library.
#[derive(Debug, Clone, PartialEq, Eq)]
pub enum Error {
    /// A read was attempted on a write-mode handle or vice versa.
    ModeViolation,
    /// A write would exceed, or was attempted after reaching, the declared size.
    SizeExceeded,
    /// A transfer specification response lacked a required field; the payload
    /// names the missing field.
    SpecMissing(String),
    /// The underlying HTTP call failed to complete; the payload describes the cause.
    Transport(String),
    /// A request completed but the server answered with a non-success HTTP
    /// status; the payload is the status code.
    RemoteRejected(u16),
    /// A response body could not be understood as JSON of the expected shape.
    Json(String),
    /// The remote API reported an error of its own.
    Service(ServiceError),
    /// Any other error, described by a message.
    Other(String),
}

impl Error {
    /// Wrap a service error as the `Err` variant of a `Result`.
    pub fn service_result<T>(err: ServiceError) -> (r: Result<T, Error>)
        ensures
            r == Err::<T, Error>(Error::Service(err)),
    {
        Err(Error::Service(err))
    }

    /// Wrap a plain message as the `Err` variant of a `Result`.
    pub fn other_result<T>(msg: String) -> (r: Result<T, Error>)
        ensures
            r == Err::<T, Error>(Error::Other(msg)),
    {
        Err(Error::Other(msg))
    }

    /// Classify a response body: when it reports a service error, hand that
    /// error back; otherwise pass the body through unchanged.
    pub fn from_json(value: serde_json::Value) -> (r: ApiResult<serde_json::Value>)
        ensures
            match service_error_fields(json_rep(value)) {
                Some(f) => r matches Err(e) && e matches Error::Service(se) && se.code matches Some(
                    c,
                ) && c@ == f.0 && se.message@ == f.1,
                None => r matches Ok(v) && v == value,
            },
    {
        match ServiceError::from_json(&value) {
            Some(e) => Err(Error::Service(e)),
            None => Ok(value),
        }
    }
}

/// Result type used in the library.
pub type ApiResult<T> = Result<T, Error>;

} // verus!
