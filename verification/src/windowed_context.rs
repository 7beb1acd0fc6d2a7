//! The windowed context handle: a native context plus the window it draws
//! into, tagged by whether it may be current on the calling thread.
//!
//! The same typestate discipline as the headless handle applies, with the
//! window-only operations added: buffer swaps, surface resizing and the
//! window accessors. Swapping, address lookup, the resolved pixel format and
//! resizing are answered only on a `PossiblyCurrent` handle; on a
//! `NotCurrent` one they are refused with `FunctionUnavailable` before the
//! native layer is ever consulted.

use vstd::prelude::*;

use crate::bridge::Handle;
use crate::bridge::ValueRegistry;
use crate::context_builder::GlutinContextBuilder;
use crate::enums::GlutinCursorIcon;
use crate::error::ContextError;
use crate::error::CreationError;
use crate::event_loop::GlutinEventLoop;
use crate::headless_context::NativeContext;
use crate::headless_context::NativeContextInfo;
use crate::pixel_format::PixelFormat;
use crate::window_builder::GlutinWindowBuilder;
use crate::window_id::WindowId128;
use crate::ContextApi;

verus! {

/// What the library keeps of a native window.
#[derive(Debug, Clone, Copy, PartialEq, Eq, Structural)]
pub struct GlutinWindowDesc {
    /// The window's process-unique identity, split into 64-bit halves.
    pub id: WindowId128,
    /// Inner width, in physical pixels.
    pub width: u32,
    /// Inner height, in physical pixels.
    pub height: u32,
    /// Outer position, horizontal, in physical pixels.
    pub x: i32,
    /// Outer position, vertical, in physical pixels.
    pub y: i32,
    /// Whether the window is maximized.
    pub maximized: bool,
    /// The cursor icon shown over the window.
    pub cursor: GlutinCursorIcon,
}

/// A native context together with the window it draws into.
#[derive(Debug, Clone, Copy, PartialEq, Eq, Structural)]
pub struct WindowedNative {
    /// The native GL context.
    pub context: NativeContext,
    /// The window the context draws into.
    pub window: GlutinWindowDesc,
    /// Width of the GL drawable surface, in physical pixels.
    pub surface_width: u32,
    /// Height of the GL drawable surface, in physical pixels.
    pub surface_height: u32,
}

/// What the platform reports after creating a window with an attached
/// context.
#[derive(Debug, Clone, Copy, PartialEq, Eq, Structural)]
pub struct WindowedCreationInfo {
    /// The new native context.
    pub context: NativeContextInfo,
    /// The new window's identity.
    pub window_id: WindowId128,
    /// Inner width of the new window, in physical pixels.
    pub width: u32,
    /// Inner height of the new window, in physical pixels.
    pub height: u32,
    /// Outer position of the new window, horizontal.
    pub x: i32,
    /// Outer position of the new window, vertical.
    pub y: i32,
}

/// A windowed GL context handle, tagged by whether it may be current on the
/// calling thread.
#[derive(Debug, Clone, Copy, PartialEq, Eq, Structural)]
pub enum GlutinWindowedContext {
    /// Known not to be current; only `make_current` and destruction apply.
    NotCurrent(WindowedNative),
    /// Possibly current on the calling thread.
    PossiblyCurrent(WindowedNative),
}

impl GlutinWindowedContext {
    /// The native pair behind the handle, whatever the marker.
    pub open spec fn native(self) -> WindowedNative {
        match self {
            GlutinWindowedContext::NotCurrent(n) => n,
            GlutinWindowedContext::PossiblyCurrent(n) => n,
        }
    }

    /// The marker never drifts from the thread binding: a `NotCurrent`
    /// handle is never bound to the calling thread.
    pub open spec fn wf(self) -> bool {
        self is NotCurrent ==> !self.native().context.bound
    }

    /// A handle with the same marker and the given native pair.
    pub open spec fn with_native(self, n: WindowedNative) -> GlutinWindowedContext {
        match self {
            GlutinWindowedContext::NotCurrent(_) => GlutinWindowedContext::NotCurrent(n),
            GlutinWindowedContext::PossiblyCurrent(_) => GlutinWindowedContext::PossiblyCurrent(n),
        }
    }

    /// The native pair, read out of a handle in either state.
    pub fn read_native(&self) -> (r: WindowedNative)
        ensures
            r == self.native(),
    {
        match self {
            GlutinWindowedContext::NotCurrent(n) => *n,
            GlutinWindowedContext::PossiblyCurrent(n) => *n,
        }
    }

    /// Whether the handle carries the `PossiblyCurrent` marker.
    pub fn is_possibly_current(&self) -> (r: bool)
        ensures
            r == (self is PossiblyCurrent),
    {
        match self {
            GlutinWindowedContext::NotCurrent(_) => false,
            GlutinWindowedContext::PossiblyCurrent(_) => true,
        }
    }

    /// Makes the context current, given the driver's answer to the bind
    /// call. Consumes the handle; on success exactly the new
    /// `PossiblyCurrent` handle is returned, on failure exactly the original
    /// handle comes back to the caller together with the error — never zero
    /// live handles and never two.
    pub fn make_current(self, outcome: Result<(), ContextError>) -> (r: Result<
        GlutinWindowedContext,
        (GlutinWindowedContext, ContextError),
    >)
        ensures
            outcome is Ok ==> (r matches Ok(c) && c == GlutinWindowedContext::PossiblyCurrent(
                WindowedNative {
                    context: NativeContext { bound: true, ..self.native().context },
                    ..self.native()
                },
            )),
            outcome matches Err(e) ==> (r matches Err(back) && back == (
                self.with_native(
                    WindowedNative {
                        context: NativeContext { bound: false, ..self.native().context },
                        ..self.native()
                    },
                ),
                e,
            )),
    {
        let native = self.read_native();
        match outcome {
            Ok(()) => Ok(
                GlutinWindowedContext::PossiblyCurrent(
                    WindowedNative {
                        context: NativeContext { bound: true, ..native.context },
                        ..native
                    },
                ),
            ),
            Err(e) => {
                let unbound = WindowedNative {
                    context: NativeContext { bound: false, ..native.context },
                    ..native
                };
                let back = if self.is_possibly_current() {
                    GlutinWindowedContext::PossiblyCurrent(unbound)
                } else {
                    GlutinWindowedContext::NotCurrent(unbound)
                };
                Err((back, e))
            },
        }
    }

    /// Swaps the window's buffers: the driver's answer is passed through only
    /// on a `PossiblyCurrent` handle; on a `NotCurrent` handle the swap is
    /// refused with `FunctionUnavailable` and the driver is never consulted.
    pub fn swap_buffers(&self, outcome: Result<(), ContextError>) -> (r: Result<
        (),
        ContextError,
    >)
        ensures
            self is PossiblyCurrent ==> r == outcome,
            self is NotCurrent ==> r == Err::<(), ContextError>(
                ContextError::FunctionUnavailable,
            ),
    {
        match self {
            GlutinWindowedContext::NotCurrent(_) => Err(ContextError::FunctionUnavailable),
            GlutinWindowedContext::PossiblyCurrent(_) => outcome,
        }
    }

    /// Answers an address lookup: the platform loader's answer is passed
    /// through only on a `PossiblyCurrent` handle; on a `NotCurrent` handle
    /// the lookup is refused with `FunctionUnavailable`.
    pub fn get_proc_address(&self, address: u64) -> (r: Result<u64, ContextError>)
        ensures
            self is PossiblyCurrent ==> r == Ok::<u64, ContextError>(address),
            self is NotCurrent ==> r == Err::<u64, ContextError>(
                ContextError::FunctionUnavailable,
            ),
    {
        match self {
            GlutinWindowedContext::NotCurrent(_) => Err(ContextError::FunctionUnavailable),
            GlutinWindowedContext::PossiblyCurrent(_) => Ok(address),
        }
    }

    /// The API the context implements.
    pub fn get_api(&self) -> (r: ContextApi)
        ensures
            r == self.native().context.api,
    {
        self.read_native().context.api
    }

    /// Whether the context is bound to the calling thread.
    pub fn is_current(&self) -> (r: bool)
        ensures
            r == self.native().context.bound,
    {
        self.read_native().context.bound
    }

    /// The resolved pixel format: knowable only once bound, so it is reported
    /// only on a `PossiblyCurrent` handle and refused with `None` otherwise.
    pub fn get_pixel_format(&self) -> (r: Option<PixelFormat>)
        ensures
            self is PossiblyCurrent ==> r == Some(self.native().context.pixel_format),
            self is NotCurrent ==> r is None,
    {
        match self {
            GlutinWindowedContext::NotCurrent(_) => None,
            GlutinWindowedContext::PossiblyCurrent(n) => Some(n.context.pixel_format),
        }
    }

    /// Resizes the GL drawable surface. Legal only on a `PossiblyCurrent`
    /// handle; on a `NotCurrent` one the resize is refused with
    /// `FunctionUnavailable` and nothing changes.
    pub fn resize(&mut self, width: u32, height: u32) -> (r: Result<(), ContextError>)
        ensures
            *old(self) is PossiblyCurrent ==> r == Ok::<(), ContextError>(()) && *final(self)
                == old(self).with_native(
                WindowedNative {
                    surface_width: width,
                    surface_height: height,
                    ..old(self).native()
                },
            ),
            *old(self) is NotCurrent ==> r == Err::<(), ContextError>(
                ContextError::FunctionUnavailable,
            ) && *final(self) == *old(self),
    {
        match self {
            GlutinWindowedContext::NotCurrent(_) => Err(ContextError::FunctionUnavailable),
            GlutinWindowedContext::PossiblyCurrent(n) => {
                n.surface_width = width;
                n.surface_height = height;
                Ok(())
            },
        }
    }
}

/// Creates a window with an attached GL context in a single attempt: the
/// windowed path has no fallback chain, so a failure is terminal and is
/// reported as it came from the platform. Both builders are consumed; the
/// new handle starts `NotCurrent` and unbound, sharing what the context
/// builder recorded.
pub fn create_windowed_context(
    builder: GlutinContextBuilder,
    window_builder: GlutinWindowBuilder,
    outcome: Result<WindowedCreationInfo, CreationError>,
) -> (r: Result<GlutinWindowedContext, CreationError>)
    ensures
        outcome matches Ok(info) ==> r == Ok::<GlutinWindowedContext, CreationError>(
            GlutinWindowedContext::NotCurrent(
                WindowedNative {
                    context: NativeContext {
                        id: info.context.id,
                        api: info.context.api,
                        pixel_format: info.context.pixel_format,
                        shared_with: builder.attribs().sharing,
                        bound: false,
                    },
                    window: GlutinWindowDesc {
                        id: info.window_id,
                        width: info.width,
                        height: info.height,
                        x: info.x,
                        y: info.y,
                        maximized: window_builder.maximized,
                        cursor: GlutinCursorIcon::Default,
                    },
                    surface_width: info.width,
                    surface_height: info.height,
                },
            ),
        ),
        outcome matches Err(e) ==> r == Err::<GlutinWindowedContext, CreationError>(e),
{
    let sharing = builder.attributes().sharing;
    match outcome {
        Ok(info) => Ok(
            GlutinWindowedContext::NotCurrent(
                WindowedNative {
                    context: NativeContext {
                        id: info.context.id,
                        api: info.context.api,
                        pixel_format: info.context.pixel_format,
                        shared_with: sharing,
                        bound: false,
                    },
                    window: GlutinWindowDesc {
                        id: info.window_id,
                        width: info.width,
                        height: info.height,
                        x: info.x,
                        y: info.y,
                        maximized: window_builder.maximized,
                        cursor: GlutinCursorIcon::Default,
                    },
                    surface_width: info.width,
                    surface_height: info.height,
                },
            ),
        ),
        Err(e) => Err(e),
    }
}

/// Creates a windowed context for the foreign caller: consumes the boxed
/// context builder and window builder, hands the platform's answer through
/// the single-attempt path, and boxes the new `NotCurrent` handle. A null or
/// dead handle anywhere changes nothing and returns null; when all three are
/// live both builders are consumed even if creation fails.
pub fn glutin_create_windowed_context(
    event_loops: &ValueRegistry<GlutinEventLoop>,
    window_builders: &mut ValueRegistry<GlutinWindowBuilder>,
    builders: &mut ValueRegistry<GlutinContextBuilder>,
    contexts: &mut ValueRegistry<GlutinWindowedContext>,
    event_loop_h: Option<Handle>,
    window_builder_h: Option<Handle>,
    builder_h: Option<Handle>,
    outcome: Result<WindowedCreationInfo, CreationError>,
) -> (r: Option<Handle>)
    ensures
        ({
            let all_live = event_loops.live_opt(event_loop_h) && old(window_builders).live_opt(
                window_builder_h,
            ) && old(builders).live_opt(builder_h);
            &&& (!all_live ==> r is None && final(window_builders)@ == old(window_builders)@
                && final(builders)@ == old(builders)@ && final(contexts)@ == old(contexts)@)
            &&& (all_live ==> {
                &&& final(window_builders)@ == old(window_builders)@.update(
                    window_builder_h->Some_0.index as int,
                    None::<GlutinWindowBuilder>,
                )
                &&& final(builders)@ == old(builders)@.update(
                    builder_h->Some_0.index as int,
                    None::<GlutinContextBuilder>,
                )
                &&& (outcome matches Ok(info) ==> {
                    &&& r matches Some(ch) && ch.index == old(contexts)@.len()
                    &&& final(contexts)@ == old(contexts)@.push(
                        Some(
                            GlutinWindowedContext::NotCurrent(
                                WindowedNative {
                                    context: NativeContext {
                                        id: info.context.id,
                                        api: info.context.api,
                                        pixel_format: info.context.pixel_format,
                                        shared_with: old(builders).value_opt(
                                            builder_h,
                                        ).attribs().sharing,
                                        bound: false,
                                    },
                                    window: GlutinWindowDesc {
                                        id: info.window_id,
                                        width: info.width,
                                        height: info.height,
                                        x: info.x,
                                        y: info.y,
                                        maximized: old(window_builders).value_opt(
                                            window_builder_h,
                                        ).maximized,
                                        cursor: GlutinCursorIcon::Default,
                                    },
                                    surface_width: info.width,
                                    surface_height: info.height,
                                },
                            ),
                        ),
                    )
                })
                &&& (outcome is Err ==> r is None && final(contexts)@ == old(contexts)@)
            })
        }),
{
    let (elh, wbh, bh) = match (event_loop_h, window_builder_h, builder_h) {
        (Some(elh), Some(wbh), Some(bh)) => (elh, wbh, bh),
        _ => {
            return None;
        },
    };
    if !event_loops.is_live(elh) || !window_builders.is_live(wbh) || !builders.is_live(bh) {
        return None;
    }
    let window_builder = match window_builders.take(wbh) {
        Some(wb) => wb,
        None => {
            return None;
        },
    };
    let builder = match builders.take(bh) {
        Some(b) => b,
        None => {
            return None;
        },
    };
    match create_windowed_context(builder, window_builder, outcome) {
        Ok(context) => Some(contexts.create(context)),
        Err(_) => None,
    }
}

/// Re-affirms or establishes currency on the boxed windowed context, given
/// the driver's answer; the returned error, if any, is for the caller to
/// log. The same handle keeps owning the transitioned context. A null or
/// dead handle changes nothing.
pub fn glutin_windowed_context_make_current(
    contexts: &mut ValueRegistry<GlutinWindowedContext>,
    h: Option<Handle>,
    outcome: Result<(), ContextError>,
) -> (r: Option<ContextError>)
    ensures
        old(contexts).live_opt(h) ==> {
            let c0 = old(contexts).value_opt(h);
            let c1 = final(contexts).value_opt(h);
            &&& final(contexts)@ == old(contexts)@.update(h->Some_0.index as int, Some(c1))
            &&& c1.wf()
            &&& c1.native() == (WindowedNative {
                context: NativeContext { bound: outcome is Ok, ..c0.native().context },
                ..c0.native()
            })
            &&& (outcome is Ok ==> c1 is PossiblyCurrent && r is None)
            &&& (outcome matches Err(e) ==> ((c1 is PossiblyCurrent <==> c0 is PossiblyCurrent)
                && r == Some(e)))
        },
        !old(contexts).live_opt(h) ==> final(contexts)@ == old(contexts)@ && r is None,
{
    let h = match h {
        Some(h) => h,
        None => {
            return None;
        },
    };
    match contexts.get(h) {
        Some(context) => match (*context).make_current(outcome) {
            Ok(transitioned) => {
                contexts.replace(h, transitioned);
                None
            },
            Err((back, error)) => {
                contexts.replace(h, back);
                Some(error)
            },
        },
        None => None,
    }
}

/// Swaps the boxed context's buffers, given the driver's answer; the
/// returned error, if any, is for the caller to log. A null or dead handle
/// is a no-op.
pub fn glutin_windowed_context_swap_buffers(
    contexts: &ValueRegistry<GlutinWindowedContext>,
    h: Option<Handle>,
    outcome: Result<(), ContextError>,
) -> (r: Option<ContextError>)
    ensures
        contexts.live_opt(h) ==> {
            let c = contexts.value_opt(h);
            &&& (c is NotCurrent ==> r == Some(ContextError::FunctionUnavailable))
            &&& (c is PossiblyCurrent ==> r == (match outcome {
                Ok(()) => None::<ContextError>,
                Err(e) => Some(e),
            }))
        },
        !contexts.live_opt(h) ==> r is None,
{
    let h = match h {
        Some(h) => h,
        None => {
            return None;
        },
    };
    match contexts.get(h) {
        Some(context) => match context.swap_buffers(outcome) {
            Ok(()) => None,
            Err(e) => Some(e),
        },
        None => None,
    }
}

/// Answers an address lookup on the boxed windowed context: the loader's
/// answer is passed through only when the handle is live and carries the
/// `PossiblyCurrent` marker; a `NotCurrent`, null or dead handle yields the
/// null address.
pub fn glutin_windowed_context_get_proc_address(
    contexts: &ValueRegistry<GlutinWindowedContext>,
    h: Option<Handle>,
    address: u64,
) -> (r: u64)
    ensures
        contexts.live_opt(h) && contexts.value_opt(h) is PossiblyCurrent ==> r == address,
        !(contexts.live_opt(h) && contexts.value_opt(h) is PossiblyCurrent) ==> r == 0,
{
    match h {
        None => 0,
        Some(h) => match contexts.get(h) {
            None => 0,
            Some(context) => match context.get_proc_address(address) {
                Ok(found) => found,
                Err(_) => 0,
            },
        },
    }
}

/// The API of the boxed windowed context; `Unknown` on a null or dead
/// handle.
pub fn glutin_windowed_context_get_api(
    contexts: &ValueRegistry<GlutinWindowedContext>,
    h: Option<Handle>,
) -> (r: ContextApi)
    ensures
        contexts.live_opt(h) ==> r == contexts.value_opt(h).native().context.api,
        !contexts.live_opt(h) ==> r == ContextApi::Unknown,
{
    match h {
        None => ContextApi::Unknown,
        Some(h) => match contexts.get(h) {
            None => ContextApi::Unknown,
            Some(context) => context.get_api(),
        },
    }
}

/// Whether the boxed windowed context is bound to the calling thread; false
/// on a null or dead handle.
pub fn glutin_windowed_context_is_current(
    contexts: &ValueRegistry<GlutinWindowedContext>,
    h: Option<Handle>,
) -> (r: bool)
    ensures
        r == (contexts.live_opt(h) && contexts.value_opt(h).native().context.bound),
{
    match h {
        None => false,
        Some(h) => match contexts.get(h) {
            None => false,
            Some(context) => context.is_current(),
        },
    }
}

/// Boxes the resolved pixel format of the boxed windowed context and hands
/// the caller the new handle. The format is knowable only once bound, so a
/// `NotCurrent` context yields the placeholder format, as the boundary
/// promises a value there; a null or dead handle yields null and leaves the
/// format registry unchanged.
pub fn glutin_windowed_context_get_pixel_format(
    contexts: &ValueRegistry<GlutinWindowedContext>,
    formats: &mut ValueRegistry<PixelFormat>,
    h: Option<Handle>,
) -> (r: Option<Handle>)
    ensures
        contexts.live_opt(h) ==> {
            let boxed = if contexts.value_opt(h) is PossiblyCurrent {
                contexts.value_opt(h).native().context.pixel_format
            } else {
                crate::pixel_format::empty_pixel_format()
            };
            &&& r matches Some(fh) && fh.index == old(formats)@.len()
            &&& final(formats)@ == old(formats)@.push(Some(boxed))
        },
        !contexts.live_opt(h) ==> r is None && final(formats)@ == old(formats)@,
{
    let h = match h {
        Some(h) => h,
        None => {
            return None;
        },
    };
    match contexts.get(h) {
        Some(context) => match context.get_pixel_format() {
            Some(format) => Some(formats.create(format)),
            None => Some(formats.create(PixelFormat::empty())),
        },
        None => None,
    }
}

/// Resizes the boxed context's drawable surface, given the new size; refused
/// with `FunctionUnavailable` on a `NotCurrent` handle. A null or dead handle
/// changes nothing.
pub fn glutin_windowed_context_resize(
    contexts: &mut ValueRegistry<GlutinWindowedContext>,
    h: Option<Handle>,
    width: u32,
    height: u32,
) -> (r: Option<ContextError>)
    ensures
        old(contexts).live_opt(h) ==> {
            let c0 = old(contexts).value_opt(h);
            &&& (c0 is PossiblyCurrent ==> r is None && final(contexts)@
                == old(contexts)@.update(
                h->Some_0.index as int,
                Some(
                    c0.with_native(
                        WindowedNative {
                            surface_width: width,
                            surface_height: height,
                            ..c0.native()
                        },
                    ),
                ),
            ))
            &&& (c0 is NotCurrent ==> r == Some(ContextError::FunctionUnavailable)
                && final(contexts)@ == old(contexts)@)
        },
        !old(contexts).live_opt(h) ==> final(contexts)@ == old(contexts)@ && r is None,
{
    let h = match h {
        Some(h) => h,
        None => {
            return None;
        },
    };
    match contexts.get(h) {
        Some(context) => {
            let mut updated = *context;
            match updated.resize(width, height) {
                Ok(()) => {
                    contexts.replace(h, updated);
                    None
                },
                Err(e) => Some(e),
            }
        },
        None => None,
    }
}

/// The inner size of the boxed context's window, in physical pixels; zero on
/// a null or dead handle.
pub fn glutin_windowed_context_get_inner_size(
    contexts: &ValueRegistry<GlutinWindowedContext>,
    h: Option<Handle>,
) -> (r: (u32, u32))
    ensures
        contexts.live_opt(h) ==> r == (
            contexts.value_opt(h).native().window.width,
            contexts.value_opt(h).native().window.height,
        ),
        !contexts.live_opt(h) ==> r == (0u32, 0u32),
{
    match h {
        None => (0, 0),
        Some(h) => match contexts.get(h) {
            None => (0, 0),
            Some(context) => {
                let native = context.read_native();
                (native.window.width, native.window.height)
            },
        },
    }
}

/// Sets the inner size of the boxed context's window; a null or dead handle
/// is a no-op.
pub fn glutin_windowed_context_set_inner_size(
    contexts: &mut ValueRegistry<GlutinWindowedContext>,
    h: Option<Handle>,
    width: u32,
    height: u32,
)
    ensures
        old(contexts).live_opt(h) ==> {
            let c0 = old(contexts).value_opt(h);
            final(contexts)@ == old(contexts)@.update(
                h->Some_0.index as int,
                Some(
                    c0.with_native(
                        WindowedNative {
                            window: GlutinWindowDesc { width, height, ..c0.native().window },
                            ..c0.native()
                        },
                    ),
                ),
            )
        },
        !old(contexts).live_opt(h) ==> final(contexts)@ == old(contexts)@,
{
    let h = match h {
        Some(h) => h,
        None => {
            return ;
        },
    };
    match contexts.get(h) {
        Some(context) => {
            let native = context.read_native();
            let updated = (*context).is_possibly_current();
            let resized = WindowedNative {
                window: GlutinWindowDesc { width, height, ..native.window },
                ..native
            };
            let value = if updated {
                GlutinWindowedContext::PossiblyCurrent(resized)
            } else {
                GlutinWindowedContext::NotCurrent(resized)
            };
            contexts.replace(h, value);
        },
        None => (),
    }
}

/// The outer position of the boxed context's window, in physical pixels;
/// zero on a null or dead handle.
pub fn glutin_windowed_context_get_position(
    contexts: &ValueRegistry<GlutinWindowedContext>,
    h: Option<Handle>,
) -> (r: (i32, i32))
    ensures
        contexts.live_opt(h) ==> r == (
            contexts.value_opt(h).native().window.x,
            contexts.value_opt(h).native().window.y,
        ),
        !contexts.live_opt(h) ==> r == (0i32, 0i32),
{
    match h {
        None => (0, 0),
        Some(h) => match contexts.get(h) {
            None => (0, 0),
            Some(context) => {
                let native = context.read_native();
                (native.window.x, native.window.y)
            },
        },
    }
}

/// Sets the outer position of the boxed context's window; a null or dead
/// handle is a no-op.
pub fn glutin_windowed_context_set_position(
    contexts: &mut ValueRegistry<GlutinWindowedContext>,
    h: Option<Handle>,
    x: i32,
    y: i32,
)
    ensures
        old(contexts).live_opt(h) ==> {
            let c0 = old(contexts).value_opt(h);
            final(contexts)@ == old(contexts)@.update(
                h->Some_0.index as int,
                Some(
                    c0.with_native(
                        WindowedNative {
                            window: GlutinWindowDesc { x, y, ..c0.native().window },
                            ..c0.native()
                        },
                    ),
                ),
            )
        },
        !old(contexts).live_opt(h) ==> final(contexts)@ == old(contexts)@,
{
    let h = match h {
        Some(h) => h,
        None => {
            return ;
        },
    };
    match contexts.get(h) {
        Some(context) => {
            let native = context.read_native();
            let possibly = (*context).is_possibly_current();
            let moved = WindowedNative {
                window: GlutinWindowDesc { x, y, ..native.window },
                ..native
            };
            let value = if possibly {
                GlutinWindowedContext::PossiblyCurrent(moved)
            } else {
                GlutinWindowedContext::NotCurrent(moved)
            };
            contexts.replace(h, value);
        },
        None => (),
    }
}

/// The identity of the boxed context's window, split into halves; the zero
/// sentinel on a null or dead handle.
pub fn glutin_windowed_context_get_id(
    contexts: &ValueRegistry<GlutinWindowedContext>,
    h: Option<Handle>,
) -> (r: WindowId128)
    ensures
        contexts.live_opt(h) ==> r == contexts.value_opt(h).native().window.id,
        !contexts.live_opt(h) ==> r == (WindowId128 { high: 0, low: 0 }),
{
    match h {
        None => WindowId128::zero(),
        Some(h) => match contexts.get(h) {
            None => WindowId128::zero(),
            Some(context) => context.read_native().window.id,
        },
    }
}

/// Sets the maximized flag of the boxed context's window; a null or dead
/// handle is a no-op.
pub fn glutin_windowed_context_set_maximized(
    contexts: &mut ValueRegistry<GlutinWindowedContext>,
    h: Option<Handle>,
    maximized: bool,
)
    ensures
        old(contexts).live_opt(h) ==> {
            let c0 = old(contexts).value_opt(h);
            final(contexts)@ == old(contexts)@.update(
                h->Some_0.index as int,
                Some(
                    c0.with_native(
                        WindowedNative {
                            window: GlutinWindowDesc { maximized, ..c0.native().window },
                            ..c0.native()
                        },
                    ),
                ),
            )
        },
        !old(contexts).live_opt(h) ==> final(contexts)@ == old(contexts)@,
{
    let h = match h {
        Some(h) => h,
        None => {
            return ;
        },
    };
    match contexts.get(h) {
        Some(context) => {
            let native = context.read_native();
            let possibly = (*context).is_possibly_current();
            let flagged = WindowedNative {
                window: GlutinWindowDesc { maximized, ..native.window },
                ..native
            };
            let value = if possibly {
                GlutinWindowedContext::PossiblyCurrent(flagged)
            } else {
                GlutinWindowedContext::NotCurrent(flagged)
            };
            contexts.replace(h, value);
        },
        None => (),
    }
}

/// Sets the cursor icon of the boxed context's window; a null or dead handle
/// is a no-op.
pub fn glutin_windowed_context_set_cursor_icon(
    contexts: &mut ValueRegistry<GlutinWindowedContext>,
    h: Option<Handle>,
    cursor_icon: GlutinCursorIcon,
)
    ensures
        old(contexts).live_opt(h) ==> {
            let c0 = old(contexts).value_opt(h);
            final(contexts)@ == old(contexts)@.update(
                h->Some_0.index as int,
                Some(
                    c0.with_native(
                        WindowedNative {
                            window: GlutinWindowDesc {
                                cursor: cursor_icon,
                                ..c0.native().window
                            },
                            ..c0.native()
                        },
                    ),
                ),
            )
        },
        !old(contexts).live_opt(h) ==> final(contexts)@ == old(contexts)@,
{
    let h = match h {
        Some(h) => h,
        None => {
            return ;
        },
    };
    match contexts.get(h) {
        Some(context) => {
            let native = context.read_native();
            let possibly = (*context).is_possibly_current();
            let changed = WindowedNative {
                window: GlutinWindowDesc { cursor: cursor_icon, ..native.window },
                ..native
            };
            let value = if possibly {
                GlutinWindowedContext::PossiblyCurrent(changed)
            } else {
                GlutinWindowedContext::NotCurrent(changed)
            };
            contexts.replace(h, value);
        },
        None => (),
    }
}

/// Destroys the boxed windowed context: the caller first asks the driver to
/// un-bind it and hands the answer in; whatever that answer was, the slot is
/// released — a failed un-bind must never prevent cleanup. The returned
/// error, if any, is for the caller to log. A null or dead handle is a
/// no-op.
pub fn glutin_destroy_windowed_context(
    contexts: &mut ValueRegistry<GlutinWindowedContext>,
    h: Option<Handle>,
    unbind_outcome: Result<(), ContextError>,
) -> (r: Option<ContextError>)
    ensures
        old(contexts).live_opt(h) ==> {
            &&& final(contexts)@ == old(contexts)@.update(
                h->Some_0.index as int,
                None::<GlutinWindowedContext>,
            )
            &&& r == (match unbind_outcome {
                Ok(()) => None::<ContextError>,
                Err(e) => Some(e),
            })
        },
        !old(contexts).live_opt(h) ==> final(contexts)@ == old(contexts)@ && r is None,
{
    let h = match h {
        Some(h) => h,
        None => {
            return None;
        },
    };
    if contexts.release(h) {
        match unbind_outcome {
            Ok(()) => None,
            Err(e) => Some(e),
        }
    } else {
        None
    }
}

} // verus!
