//! Lifecycle and ownership discipline for OpenGL rendering contexts exposed
//! across a C-style ABI boundary.
//!
//! The crate models the parts of a GL binding layer that carry real design
//! weight: the `NotCurrent` / `PossiblyCurrent` state machine of a context
//! handle, the builder that accumulates context attributes, the ordered
//! fallback strategy for headless context creation, the registry that stands
//! behind every opaque handle the foreign caller sees, and the translation of
//! native events into a fixed-layout struct. The native driver and window
//! system are collaborators: every call into them is performed outside this
//! crate, and its outcome is handed to the functions here as a plain value.

use vstd::prelude::*;

pub mod bridge;
pub mod enums;
pub mod context_builder;
pub mod cstruct;
pub mod error;
pub mod events;
pub mod event_loop;
pub mod headless_context;
pub mod pixel_format;
pub mod pixel_format_requirements;
pub mod window_builder;
pub mod window_id;
pub mod windowed_context;

verus! {

/// All APIs related to OpenGL that a context can report.
#[derive(Debug, Clone, Copy, PartialEq, Eq, Structural)]
pub enum ContextApi {
    /// The classical OpenGL, available on desktop platforms.
    OpenGl,
    /// OpenGL for embedded systems.
    OpenGlEs,
    /// OpenGL for the web, very similar to OpenGL ES.
    WebGl,
    /// Reported when no context is available to ask.
    Unknown,
}

/// Smoke-test entry point: reports that the library is loaded and callable.
pub fn glutin_test() -> (r: bool)
    ensures
        r,
{
    true
}

} // verus!
