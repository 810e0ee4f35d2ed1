//! Standard response envelopes shared by the HTTP surface.

use vstd::prelude::*;

verus! {

/// Generic response wrapper with optional metadata.
#[derive(Debug, Clone)]
pub struct ApiResponse<T> {
    pub data: T,
    /// Free-form metadata payload, serialized by the transport layer.
    pub meta: Option<String>,
}

impl<T> ApiResponse<T> {
    /// Wraps `data` with no metadata.
    pub fn new(data: T) -> (r: Self)
        ensures
            r.data == data,
            r.meta is None,
    {
        ApiResponse { data, meta: None }
    }

    /// Wraps `data` with metadata attached.
    pub fn with_meta(data: T, meta: String) -> (r: Self)
        ensures
            r.data == data,
            r.meta == Some(meta),
    {
        ApiResponse { data, meta: Some(meta) }
    }
}

/// Response carrying a single data item.
#[derive(Debug, Clone)]
pub struct DataResponse<T> {
    pub data: T,
}

impl<T> DataResponse<T> {
    /// Wraps `data`.
    pub fn new(data: T) -> (r: Self)
        ensures
            r.data == data,
    {
        DataResponse { data }
    }
}

/// Simple message response, optionally carrying a machine-readable code.
#[derive(Debug, Clone, PartialEq, Eq)]
pub struct MessageResponse {
    pub message: String,
    pub code: Option<String>,
}

impl MessageResponse {
    /// A bare message.
    pub fn new(message: &str) -> (r: Self)
        ensures
            r.message@ == message@,
            r.code is None,
    {
        MessageResponse { message: String::from_str(message), code: None }
    }

    /// A message with a machine-readable code.
    pub fn with_code(message: &str, code: &str) -> (r: Self)
        ensures
            r.message@ == message@,
            r.code is Some && r.code->0@ == code@,
    {
        MessageResponse { message: String::from_str(message), code: Some(String::from_str(code)) }
    }
}

/// Marker for responses with no body.
#[derive(Debug, Clone, Copy, PartialEq, Eq, Structural)]
pub struct NoContent;

/// Error payload sent to the caller.
#[derive(Debug, Clone, PartialEq, Eq)]
pub struct ErrorResponse {
    pub code: String,
    pub message: String,
    pub request_id: Option<String>,
}

/// Health of each backing service, as reported by the health endpoint.
#[derive(Debug, Clone, PartialEq, Eq)]
pub struct ServiceHealth {
    pub database: String,
    pub redis: String,
    pub ai_service: String,
}

/// Overall service health report.
#[derive(Debug, Clone, PartialEq, Eq)]
pub struct HealthResponse {
    pub status: String,
    pub version: String,
    pub services: ServiceHealth,
}

} // verus!
