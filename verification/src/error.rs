//! Error taxonomy of the binding layer.
//!
//! `ContextError` covers failures of operations on an existing context;
//! `CreationError` covers failures to create a context or window in the first
//! place. Both are returned as explicit results, never unwound across the
//! boundary.

use vstd::prelude::*;

verus! {

/// A failure of an operation on an already created context.
#[derive(Debug, PartialEq, Eq)]
pub enum ContextError {
    /// The platform reported an error, described by its message.
    OsError(String),
    /// An input/output error surfaced by the platform, described by its
    /// message.
    IoError(String),
    /// The native context was lost; not retryable within the same handle.
    ContextLost,
    /// The requested operation is not available in the handle's state; not
    /// retryable within the same handle.
    FunctionUnavailable,
}

impl Clone for ContextError {
    /// A clone carries the same variant and message as the original.
    fn clone(&self) -> (r: Self)
        ensures
            r == self,
    {
        match self {
            ContextError::OsError(message) => ContextError::OsError(message.clone()),
            ContextError::IoError(message) => ContextError::IoError(message.clone()),
            ContextError::ContextLost => ContextError::ContextLost,
            ContextError::FunctionUnavailable => ContextError::FunctionUnavailable,
        }
    }
}

impl ContextError {
    /// A short, stable name for the variant, for diagnostics.
    pub fn kind_name(&self) -> (r: &'static str)
        ensures
            self is OsError ==> r@ == "os error"@,
            self is IoError ==> r@ == "io error"@,
            self is ContextLost ==> r@ == "context lost"@,
            self is FunctionUnavailable ==> r@ == "function unavailable"@,
    {
        match self {
            ContextError::OsError(_) => "os error",
            ContextError::IoError(_) => "io error",
            ContextError::ContextLost => "context lost",
            ContextError::FunctionUnavailable => "function unavailable",
        }
    }
}

/// A failure to create a window or context.
#[derive(Debug, PartialEq, Eq)]
pub enum CreationError {
    /// The platform reported an error, described by its message.
    OsError(String),
    /// The requested creation method is not supported here; the message says
    /// why.
    NotSupported(String),
    /// No pixel format satisfied the accumulated requirements.
    NoAvailablePixelFormat,
    /// The backend needed for the requested method is not installed.
    NoBackendAvailable(String),
}

impl Clone for CreationError {
    /// A clone carries the same variant and message as the original.
    fn clone(&self) -> (r: Self)
        ensures
            r == self,
    {
        match self {
            CreationError::OsError(message) => CreationError::OsError(message.clone()),
            CreationError::NotSupported(message) => CreationError::NotSupported(message.clone()),
            CreationError::NoAvailablePixelFormat => CreationError::NoAvailablePixelFormat,
            CreationError::NoBackendAvailable(message) => CreationError::NoBackendAvailable(
                message.clone(),
            ),
        }
    }
}

impl CreationError {
    /// A short, stable name for the variant, for diagnostics.
    pub fn kind_name(&self) -> (r: &'static str)
        ensures
            self is OsError ==> r@ == "os error"@,
            self is NotSupported ==> r@ == "not supported"@,
            self is NoAvailablePixelFormat ==> r@ == "no available pixel format"@,
            self is NoBackendAvailable ==> r@ == "no backend available"@,
    {
        match self {
            CreationError::OsError(_) => "os error",
            CreationError::NotSupported(_) => "not supported",
            CreationError::NoAvailablePixelFormat => "no available pixel format",
            CreationError::NoBackendAvailable(_) => "no backend available",
        }
    }
}

} // verus!
