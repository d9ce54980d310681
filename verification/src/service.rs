//! Error taxonomy of the gateway-request layer.

use vstd::prelude::*;
use vstd::string::{StrSliceExecFns, StringSliceAdditionalSpecFns};

use crate::bytes::{contains_sub, spec_contains_sub};
use crate::types::RejectCode;

verus! {

/// Failures of provider lookup and registration.
#[derive(Clone, Debug, PartialEq, Eq)]
pub enum ProviderError {
    NoPermission,
    TooFewCycles { expected: u128, received: u128 },
    ProviderNotFound,
    MissingRequiredProvider,
}

/// Failures of request validation.
#[derive(Clone, Debug, PartialEq, Eq)]
pub enum ValidationError {
    Custom(String),
    InvalidHex(String),
    UrlParseError(String),
    HostNotAllowed(String),
    CredentialPathNotAllowed,
    CredentialHeaderNotAllowed,
}

/// An application-level error carried in a JSON-RPC reply.
#[derive(Clone, Debug, PartialEq, Eq)]
pub struct JsonRpcError {
    pub code: i64,
    pub message: String,
}

/// A failed outgoing HTTP request.
#[derive(Clone, Debug, PartialEq, Eq)]
pub enum HttpOutcallError {
    /// The host system rejected the request.
    IcError { code: RejectCode, message: String },
    /// The response was not a valid reply: a non-success status, or a body
    /// that could not be read.
    InvalidHttpJsonRpcResponse { status: u16, body: String, parsing_error: Option<String> },
}

/// Any failure of the gateway-request layer.
#[derive(Clone, Debug, PartialEq, Eq)]
pub enum ServiceError {
    ProviderError(ProviderError),
    HttpOutcallError(HttpOutcallError),
    JsonRpcError(JsonRpcError),
    ValidationError(ValidationError),
}

impl From<ProviderError> for ServiceError {
    fn from(err: ProviderError) -> (r: Self) {
        ServiceError::ProviderError(err)
    }
}

impl vstd::std_specs::convert::FromSpecImpl<ProviderError> for ServiceError {
    open spec fn obeys_from_spec() -> bool {
        true
    }

    open spec fn from_spec(err: ProviderError) -> Self {
        ServiceError::ProviderError(err)
    }
}

impl From<HttpOutcallError> for ServiceError {
    fn from(err: HttpOutcallError) -> (r: Self) {
        ServiceError::HttpOutcallError(err)
    }
}

impl vstd::std_specs::convert::FromSpecImpl<HttpOutcallError> for ServiceError {
    open spec fn obeys_from_spec() -> bool {
        true
    }

    open spec fn from_spec(err: HttpOutcallError) -> Self {
        ServiceError::HttpOutcallError(err)
    }
}

impl From<JsonRpcError> for ServiceError {
    fn from(err: JsonRpcError) -> (r: Self) {
        ServiceError::JsonRpcError(err)
    }
}

impl vstd::std_specs::convert::FromSpecImpl<JsonRpcError> for ServiceError {
    open spec fn obeys_from_spec() -> bool {
        true
    }

    open spec fn from_spec(err: JsonRpcError) -> Self {
        ServiceError::JsonRpcError(err)
    }
}

impl From<ValidationError> for ServiceError {
    fn from(err: ValidationError) -> (r: Self) {
        ServiceError::ValidationError(err)
    }
}

impl vstd::std_specs::convert::FromSpecImpl<ValidationError> for ServiceError {
    open spec fn obeys_from_spec() -> bool {
        true
    }

    open spec fn from_spec(err: ValidationError) -> Self {
        ServiceError::ValidationError(err)
    }
}

/// The result type of the gateway-request layer.
pub type ServiceResult<T> = Result<T, ServiceError>;

/// Whether a rejected request failed because the response exceeded the size
/// limit: a fatal system reject whose message mentions the size limit.
pub fn is_response_too_large(code: &RejectCode, message: &str) -> (r: bool)
    ensures
        r == (*code is SysFatal && spec_contains_sub(message.spec_bytes(), "size limit".spec_bytes())),
{
    let fatal = match code {
        RejectCode::SysFatal => true,
        _ => false,
    };
    if !fatal {
        return false;
    }
    let hay = message.as_bytes_vec();
    let needle = "size limit".as_bytes_vec();
    contains_sub(&hay, &needle)
}

impl HttpOutcallError {
    /// Whether this failure is a response-too-large reject.
    pub fn is_response_too_large(&self) -> (r: bool)
        ensures
            r == match self {
                HttpOutcallError::IcError { code, message } => *code is SysFatal
                    && spec_contains_sub(
                    vstd::utf8::encode_utf8(message@),
                    "size limit".spec_bytes(),
                ),
                HttpOutcallError::InvalidHttpJsonRpcResponse { .. } => false,
            },
    {
        match self {
            HttpOutcallError::IcError { code, message } => is_response_too_large(
                code,
                message.as_str(),
            ),
            HttpOutcallError::InvalidHttpJsonRpcResponse { .. } => false,
        }
    }
}

} // verus!
