//! The window description a caller accumulates before windowed context
//! creation, and its entry points over the bridge.
//!
//! The native window title and logical dimensions are carried by the native
//! builder outside this crate; the flags the creation logic reads are
//! modelled here.

use vstd::prelude::*;

use crate::bridge::Handle;
use crate::bridge::ValueRegistry;

verus! {

/// The accumulated window flags.
#[derive(Debug, Clone, Copy, PartialEq, Eq, Structural)]
pub struct GlutinWindowBuilder {
    /// Whether the window has a frame and title bar.
    pub decorations: bool,
    /// Whether the window background is transparent.
    pub transparency: bool,
    /// Whether the user may resize the window.
    pub resizable: bool,
    /// Whether the window starts maximized.
    pub maximized: bool,
    /// Whether the window starts visible.
    pub visibility: bool,
    /// Whether the window stays above the others.
    pub always_on_top: bool,
}

/// The flags a freshly made window builder starts from.
pub open spec fn default_window_builder() -> GlutinWindowBuilder {
    GlutinWindowBuilder {
        decorations: true,
        transparency: false,
        resizable: true,
        maximized: false,
        visibility: true,
        always_on_top: false,
    }
}

impl GlutinWindowBuilder {
    /// A fresh builder with the default flags.
    pub fn new() -> (r: GlutinWindowBuilder)
        ensures
            r == default_window_builder(),
    {
        GlutinWindowBuilder {
            decorations: true,
            transparency: false,
            resizable: true,
            maximized: false,
            visibility: true,
            always_on_top: false,
        }
    }
}

/// Boxes a fresh default window builder and hands the caller its handle.
pub fn glutin_create_window_builder(
    registry: &mut ValueRegistry<GlutinWindowBuilder>,
) -> (h: Handle)
    ensures
        final(registry)@ == old(registry)@.push(Some(default_window_builder())),
        final(registry).live(h),
{
    registry.create(GlutinWindowBuilder::new())
}

/// Drops the boxed window builder; a null or dead handle is a no-op.
pub fn glutin_destroy_window_builder(
    registry: &mut ValueRegistry<GlutinWindowBuilder>,
    h: Option<Handle>,
)
    ensures
        old(registry).live_opt(h) ==> final(registry)@ == old(registry)@.update(
            h->Some_0.index as int,
            None::<GlutinWindowBuilder>,
        ),
        !old(registry).live_opt(h) ==> final(registry)@ == old(registry)@,
{
    match h {
        None => (),
        Some(h) => {
            registry.release(h);
        },
    }
}

/// Sets the decorations flag on the boxed builder; a null or dead handle is
/// a no-op.
pub fn glutin_window_builder_with_decorations(
    registry: &mut ValueRegistry<GlutinWindowBuilder>,
    h: Option<Handle>,
    with_decorations: bool,
)
    ensures
        old(registry).live_opt(h) ==> final(registry)@ == old(registry)@.update(
            h->Some_0.index as int,
            Some(
                GlutinWindowBuilder {
                    decorations: with_decorations,
                    ..old(registry).value_opt(h)
                },
            ),
        ),
        !old(registry).live_opt(h) ==> final(registry)@ == old(registry)@,
{
    let h = match h {
        Some(h) => h,
        None => {
            return ;
        },
    };
    match registry.get(h) {
        Some(builder) => {
            let updated = GlutinWindowBuilder { decorations: with_decorations, ..*builder };
            registry.replace(h, updated);
        },
        None => (),
    }
}

/// Sets the transparency flag on the boxed builder; a null or dead handle is
/// a no-op.
pub fn glutin_window_builder_with_transparency(
    registry: &mut ValueRegistry<GlutinWindowBuilder>,
    h: Option<Handle>,
    with_transparency: bool,
)
    ensures
        old(registry).live_opt(h) ==> final(registry)@ == old(registry)@.update(
            h->Some_0.index as int,
            Some(
                GlutinWindowBuilder {
                    transparency: with_transparency,
                    ..old(registry).value_opt(h)
                },
            ),
        ),
        !old(registry).live_opt(h) ==> final(registry)@ == old(registry)@,
{
    let h = match h {
        Some(h) => h,
        None => {
            return ;
        },
    };
    match registry.get(h) {
        Some(builder) => {
            let updated = GlutinWindowBuilder { transparency: with_transparency, ..*builder };
            registry.replace(h, updated);
        },
        None => (),
    }
}

/// Sets the resizable flag on the boxed builder; a null or dead handle is a
/// no-op.
pub fn glutin_window_builder_with_resizable(
    registry: &mut ValueRegistry<GlutinWindowBuilder>,
    h: Option<Handle>,
    with_resizable: bool,
)
    ensures
        old(registry).live_opt(h) ==> final(registry)@ == old(registry)@.update(
            h->Some_0.index as int,
            Some(
                GlutinWindowBuilder { resizable: with_resizable, ..old(registry).value_opt(h) },
            ),
        ),
        !old(registry).live_opt(h) ==> final(registry)@ == old(registry)@,
{
    let h = match h {
        Some(h) => h,
        None => {
            return ;
        },
    };
    match registry.get(h) {
        Some(builder) => {
            let updated = GlutinWindowBuilder { resizable: with_resizable, ..*builder };
            registry.replace(h, updated);
        },
        None => (),
    }
}

/// Sets the maximized flag on the boxed builder; a null or dead handle is a
/// no-op.
pub fn glutin_window_builder_with_maximized(
    registry: &mut ValueRegistry<GlutinWindowBuilder>,
    h: Option<Handle>,
    with_maximized: bool,
)
    ensures
        old(registry).live_opt(h) ==> final(registry)@ == old(registry)@.update(
            h->Some_0.index as int,
            Some(
                GlutinWindowBuilder { maximized: with_maximized, ..old(registry).value_opt(h) },
            ),
        ),
        !old(registry).live_opt(h) ==> final(registry)@ == old(registry)@,
{
    let h = match h {
        Some(h) => h,
        None => {
            return ;
        },
    };
    match registry.get(h) {
        Some(builder) => {
            let updated = GlutinWindowBuilder { maximized: with_maximized, ..*builder };
            registry.replace(h, updated);
        },
        None => (),
    }
}

/// Sets the visibility flag on the boxed builder; a null or dead handle is a
/// no-op.
pub fn glutin_window_builder_with_visibility(
    registry: &mut ValueRegistry<GlutinWindowBuilder>,
    h: Option<Handle>,
    with_visibility: bool,
)
    ensures
        old(registry).live_opt(h) ==> final(registry)@ == old(registry)@.update(
            h->Some_0.index as int,
            Some(
                GlutinWindowBuilder { visibility: with_visibility, ..old(registry).value_opt(h) },
            ),
        ),
        !old(registry).live_opt(h) ==> final(registry)@ == old(registry)@,
{
    let h = match h {
        Some(h) => h,
        None => {
            return ;
        },
    };
    match registry.get(h) {
        Some(builder) => {
            let updated = GlutinWindowBuilder { visibility: with_visibility, ..*builder };
            registry.replace(h, updated);
        },
        None => (),
    }
}

/// Sets the always-on-top flag on the boxed builder; a null or dead handle is
/// a no-op.
pub fn glutin_window_builder_with_always_on_top(
    registry: &mut ValueRegistry<GlutinWindowBuilder>,
    h: Option<Handle>,
    with_always_on_top: bool,
)
    ensures
        old(registry).live_opt(h) ==> final(registry)@ == old(registry)@.update(
            h->Some_0.index as int,
            Some(
                GlutinWindowBuilder {
                    always_on_top: with_always_on_top,
                    ..old(registry).value_opt(h)
                },
            ),
        ),
        !old(registry).live_opt(h) ==> final(registry)@ == old(registry)@,
{
    let h = match h {
        Some(h) => h,
        None => {
            return ;
        },
    };
    match registry.get(h) {
        Some(builder) => {
            let updated = GlutinWindowBuilder { always_on_top: with_always_on_top, ..*builder };
            registry.replace(h, updated);
        },
        None => (),
    }
}

} // verus!
