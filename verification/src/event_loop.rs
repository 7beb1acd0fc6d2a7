//! The library's model of a native event loop.
//!
//! The native loop itself (window system connection, callback dispatch) lives
//! outside this crate; what the creation strategy and the diagnostics need
//! from it is which windowing backend it is connected to.

use vstd::prelude::*;

use crate::bridge::Handle;
use crate::bridge::ValueRegistry;

verus! {

/// The windowing backend a native event loop is connected to.
#[derive(Debug, Clone, Copy, PartialEq, Eq, Structural)]
pub enum GlutinEventLoopType {
    /// The Windows desktop.
    Windows,
    /// The macOS desktop.
    MacOS,
    /// An X11 display server.
    X11,
    /// A Wayland compositor.
    Wayland,
    /// The backend could not be determined.
    Unknown,
}

/// What the library reads from a native event loop: the backend it runs on.
#[derive(Debug, Clone, Copy, PartialEq, Eq, Structural)]
pub struct GlutinEventLoop {
    /// The windowing backend the native loop is connected to.
    pub loop_type: GlutinEventLoopType,
}

impl GlutinEventLoop {
    /// Records a native event loop running on the given backend.
    pub fn new(loop_type: GlutinEventLoopType) -> (r: GlutinEventLoop)
        ensures
            r.loop_type == loop_type,
    {
        GlutinEventLoop { loop_type }
    }

    /// Whether the loop runs on an X11 display server.
    pub fn is_x11(&self) -> (r: bool)
        ensures
            r == (self.loop_type is X11),
    {
        match self.loop_type {
            GlutinEventLoopType::X11 => true,
            _ => false,
        }
    }

    /// Whether the loop runs on a Wayland compositor.
    pub fn is_wayland(&self) -> (r: bool)
        ensures
            r == (self.loop_type is Wayland),
    {
        match self.loop_type {
            GlutinEventLoopType::Wayland => true,
            _ => false,
        }
    }
}

/// Boxes the record of a native event loop running on the given backend and
/// hands the caller its handle.
pub fn glutin_create_events_loop(
    registry: &mut ValueRegistry<GlutinEventLoop>,
    loop_type: GlutinEventLoopType,
) -> (h: Handle)
    ensures
        final(registry)@ == old(registry)@.push(Some(GlutinEventLoop { loop_type })),
        final(registry).live(h),
        final(registry).value_of(h) == (GlutinEventLoop { loop_type }),
{
    registry.create(GlutinEventLoop::new(loop_type))
}

/// Reads the backend of a boxed event loop; `Unknown` on a null or dead
/// handle.
pub fn glutin_events_loop_get_type(
    registry: &ValueRegistry<GlutinEventLoop>,
    h: Option<Handle>,
) -> (r: GlutinEventLoopType)
    ensures
        registry.live_opt(h) ==> r == registry.value_opt(h).loop_type,
        !registry.live_opt(h) ==> r == GlutinEventLoopType::Unknown,
{
    match h {
        None => GlutinEventLoopType::Unknown,
        Some(h) => match registry.get(h) {
            None => GlutinEventLoopType::Unknown,
            Some(event_loop) => event_loop.loop_type,
        },
    }
}

/// Drops the boxed event loop record; a null or dead handle is a no-op.
pub fn glutin_destroy_events_loop(
    registry: &mut ValueRegistry<GlutinEventLoop>,
    h: Option<Handle>,
)
    ensures
        old(registry).live_opt(h) ==> final(registry)@ == old(registry)@.update(
            h->Some_0.index as int,
            None::<GlutinEventLoop>,
        ),
        !old(registry).live_opt(h) ==> final(registry)@ == old(registry)@,
{
    match h {
        None => (),
        Some(h) => {
            registry.release(h);
        },
    }
}

} // verus!
