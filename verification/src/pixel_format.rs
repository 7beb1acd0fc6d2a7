//! The resolved pixel format of a created context, and the foreign-caller
//! entry points that read it through the ownership bridge.
//!
//! Every entry point takes the handle the caller passed — `None` stands for a
//! null pointer — and returns the documented safe default when the handle is
//! null or dead, without touching the registry.

use vstd::prelude::*;

use crate::bridge::Handle;
use crate::bridge::ValueRegistry;

verus! {

/// The framebuffer attributes a context was actually created with, as
/// negotiated by the platform. Read-only once created.
#[derive(Debug, Clone, Copy, PartialEq, Eq, Structural)]
pub struct PixelFormat {
    /// Whether the format is backed by the GPU rather than a software raster.
    pub hardware_accelerated: bool,
    /// Bits per pixel for color, all channels together.
    pub color_bits: u8,
    /// Bits per pixel for the alpha channel.
    pub alpha_bits: u8,
    /// Bits per pixel of the depth buffer.
    pub depth_bits: u8,
    /// Bits per pixel of the stencil buffer.
    pub stencil_bits: u8,
    /// Whether the format is stereoscopic.
    pub stereoscopy: bool,
    /// Whether the format is double-buffered.
    pub double_buffer: bool,
    /// Number of multisampling samples, when multisampling was negotiated.
    pub multisampling: Option<u16>,
    /// Whether the framebuffer is sRGB-capable.
    pub srgb: bool,
}

/// The placeholder format reported when no negotiated format is available:
/// every attribute off, every bit count zero.
pub open spec fn empty_pixel_format() -> PixelFormat {
    PixelFormat {
        hardware_accelerated: false,
        color_bits: 0,
        alpha_bits: 0,
        depth_bits: 0,
        stencil_bits: 0,
        stereoscopy: false,
        double_buffer: false,
        multisampling: None,
        srgb: false,
    }
}

impl PixelFormat {
    /// The placeholder format reported when no negotiated format is
    /// available; see `empty_pixel_format`.
    pub fn empty() -> (r: PixelFormat)
        ensures
            r == empty_pixel_format(),
    {
        PixelFormat {
            hardware_accelerated: false,
            color_bits: 0,
            alpha_bits: 0,
            depth_bits: 0,
            stencil_bits: 0,
            stereoscopy: false,
            double_buffer: false,
            multisampling: None,
            srgb: false,
        }
    }
}

/// Boxes the placeholder pixel format and hands the caller its handle.
pub fn glutin_pixel_format_default(registry: &mut ValueRegistry<PixelFormat>) -> (h: Handle)
    ensures
        final(registry)@ == old(registry)@.push(Some(empty_pixel_format())),
        final(registry).live(h),
        final(registry).value_of(h) == empty_pixel_format(),
{
    registry.create(PixelFormat::empty())
}

/// Reads `hardware_accelerated`; false on a null or dead handle.
pub fn glutin_pixel_format_is_hardware_accelerated(
    registry: &ValueRegistry<PixelFormat>,
    h: Option<Handle>,
) -> (r: bool)
    ensures
        r == (registry.live_opt(h) && registry.value_opt(h).hardware_accelerated),
{
    match h {
        None => false,
        Some(h) => match registry.get(h) {
            None => false,
            Some(format) => format.hardware_accelerated,
        },
    }
}

/// Reads `color_bits`; zero on a null or dead handle.
pub fn glutin_pixel_format_get_color_bits(
    registry: &ValueRegistry<PixelFormat>,
    h: Option<Handle>,
) -> (r: u8)
    ensures
        registry.live_opt(h) ==> r == registry.value_opt(h).color_bits,
        !registry.live_opt(h) ==> r == 0,
{
    match h {
        None => 0,
        Some(h) => match registry.get(h) {
            None => 0,
            Some(format) => format.color_bits,
        },
    }
}

/// Reads `alpha_bits`; zero on a null or dead handle.
pub fn glutin_pixel_format_get_alpha_bits(
    registry: &ValueRegistry<PixelFormat>,
    h: Option<Handle>,
) -> (r: u8)
    ensures
        registry.live_opt(h) ==> r == registry.value_opt(h).alpha_bits,
        !registry.live_opt(h) ==> r == 0,
{
    match h {
        None => 0,
        Some(h) => match registry.get(h) {
            None => 0,
            Some(format) => format.alpha_bits,
        },
    }
}

/// Reads `depth_bits`; zero on a null or dead handle.
pub fn glutin_pixel_format_get_depth_bits(
    registry: &ValueRegistry<PixelFormat>,
    h: Option<Handle>,
) -> (r: u8)
    ensures
        registry.live_opt(h) ==> r == registry.value_opt(h).depth_bits,
        !registry.live_opt(h) ==> r == 0,
{
    match h {
        None => 0,
        Some(h) => match registry.get(h) {
            None => 0,
            Some(format) => format.depth_bits,
        },
    }
}

/// Reads `stencil_bits`; zero on a null or dead handle.
pub fn glutin_pixel_format_get_stencil_bits(
    registry: &ValueRegistry<PixelFormat>,
    h: Option<Handle>,
) -> (r: u8)
    ensures
        registry.live_opt(h) ==> r == registry.value_opt(h).stencil_bits,
        !registry.live_opt(h) ==> r == 0,
{
    match h {
        None => 0,
        Some(h) => match registry.get(h) {
            None => 0,
            Some(format) => format.stencil_bits,
        },
    }
}

/// Reads `stereoscopy`; false on a null or dead handle.
pub fn glutin_pixel_format_is_stereoscopy(
    registry: &ValueRegistry<PixelFormat>,
    h: Option<Handle>,
) -> (r: bool)
    ensures
        r == (registry.live_opt(h) && registry.value_opt(h).stereoscopy),
{
    match h {
        None => false,
        Some(h) => match registry.get(h) {
            None => false,
            Some(format) => format.stereoscopy,
        },
    }
}

/// Reads `double_buffer`; false on a null or dead handle.
pub fn glutin_pixel_format_is_double_buffer(
    registry: &ValueRegistry<PixelFormat>,
    h: Option<Handle>,
) -> (r: bool)
    ensures
        r == (registry.live_opt(h) && registry.value_opt(h).double_buffer),
{
    match h {
        None => false,
        Some(h) => match registry.get(h) {
            None => false,
            Some(format) => format.double_buffer,
        },
    }
}

/// Reports whether multisampling was negotiated; false on a null or dead
/// handle.
pub fn glutin_pixel_format_has_multisampling(
    registry: &ValueRegistry<PixelFormat>,
    h: Option<Handle>,
) -> (r: bool)
    ensures
        r == (registry.live_opt(h) && registry.value_opt(h).multisampling is Some),
{
    match h {
        None => false,
        Some(h) => match registry.get(h) {
            None => false,
            Some(format) => format.multisampling.is_some(),
        },
    }
}

/// Reads the multisampling sample count; zero when absent or on a null or
/// dead handle.
pub fn glutin_pixel_format_get_multisampling(
    registry: &ValueRegistry<PixelFormat>,
    h: Option<Handle>,
) -> (r: u16)
    ensures
        registry.live_opt(h) ==> r == registry.value_opt(h).multisampling.unwrap_or(0),
        !registry.live_opt(h) ==> r == 0,
{
    match h {
        None => 0,
        Some(h) => match registry.get(h) {
            None => 0,
            Some(format) => format.multisampling.unwrap_or(0),
        },
    }
}

/// Reads `srgb`; false on a null or dead handle.
pub fn glutin_pixel_format_is_srgb(
    registry: &ValueRegistry<PixelFormat>,
    h: Option<Handle>,
) -> (r: bool)
    ensures
        r == (registry.live_opt(h) && registry.value_opt(h).srgb),
{
    match h {
        None => false,
        Some(h) => match registry.get(h) {
            None => false,
            Some(format) => format.srgb,
        },
    }
}

/// Drops the boxed pixel format; a null or dead handle is a no-op.
pub fn glutin_pixel_format_drop(
    registry: &mut ValueRegistry<PixelFormat>,
    h: Option<Handle>,
)
    ensures
        old(registry).live_opt(h) ==> final(registry)@ == old(registry)@.update(
            h->Some_0.index as int,
            None::<PixelFormat>,
        ),
        !old(registry).live_opt(h) ==> final(registry)@ == old(registry)@,
{
    match h {
        None => (),
        Some(h) => {
            registry.release(h);
        },
    }
}

} // verus!
