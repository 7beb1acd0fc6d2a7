//! The pixel format a caller asks for before any context exists, and the
//! entry points that read an accumulated request through the bridge.
//!
//! A `Some` field is a constraint the platform must honour; `None` means
//! "don't care", letting the platform choose.

use vstd::prelude::*;

use crate::bridge::Handle;
use crate::bridge::ValueRegistry;

verus! {

/// The accumulated pixel format request of a context builder.
#[derive(Debug, Clone, Copy, PartialEq, Eq, Structural)]
pub struct PixelFormatRequirements {
    /// `Some(true)` requires GPU acceleration, `Some(false)` requires a
    /// software renderer, `None` takes either.
    pub hardware_accelerated: Option<bool>,
    /// Minimum bits per pixel for color, all channels together.
    pub color_bits: Option<u8>,
    /// Whether a floating-point color buffer is required.
    pub float_color_buffer: bool,
    /// Minimum bits per pixel for the alpha channel.
    pub alpha_bits: Option<u8>,
    /// Minimum bits per pixel of the depth buffer.
    pub depth_bits: Option<u8>,
    /// Minimum bits per pixel of the stencil buffer.
    pub stencil_bits: Option<u8>,
    /// Whether double buffering is required or forbidden; `None` lets the
    /// platform choose.
    pub double_buffer: Option<bool>,
    /// Required multisampling sample count; `None` asks for none.
    pub multisampling: Option<u16>,
    /// Whether a stereoscopic format is required.
    pub stereoscopy: bool,
    /// Whether an sRGB-capable format is required.
    pub srgb: bool,
}

/// The request a freshly made builder starts from: a hardware-accelerated,
/// sRGB-capable 24-bit color format with an 8-bit alpha channel, a 24-bit
/// depth buffer and an 8-bit stencil buffer, leaving double buffering and
/// multisampling to the platform.
pub open spec fn default_pixel_format_requirements() -> PixelFormatRequirements {
    PixelFormatRequirements {
        hardware_accelerated: Some(true),
        color_bits: Some(24),
        float_color_buffer: false,
        alpha_bits: Some(8),
        depth_bits: Some(24),
        stencil_bits: Some(8),
        double_buffer: None,
        multisampling: None,
        stereoscopy: false,
        srgb: true,
    }
}

impl PixelFormatRequirements {
    /// The request a freshly made builder starts from; see
    /// `default_pixel_format_requirements`.
    pub fn new_default() -> (r: PixelFormatRequirements)
        ensures
            r == default_pixel_format_requirements(),
    {
        PixelFormatRequirements {
            hardware_accelerated: Some(true),
            color_bits: Some(24),
            float_color_buffer: false,
            alpha_bits: Some(8),
            depth_bits: Some(24),
            stencil_bits: Some(8),
            double_buffer: None,
            multisampling: None,
            stereoscopy: false,
            srgb: true,
        }
    }
}

/// Boxes the default request and hands the caller its handle.
pub fn glutin_pixel_format_requirements_default(
    registry: &mut ValueRegistry<PixelFormatRequirements>,
) -> (h: Handle)
    ensures
        final(registry)@ == old(registry)@.push(Some(default_pixel_format_requirements())),
        final(registry).live(h),
        final(registry).value_of(h) == default_pixel_format_requirements(),
{
    registry.create(PixelFormatRequirements::new_default())
}

/// Whether the request constrains hardware acceleration; false on a null or
/// dead handle.
pub fn glutin_pixel_format_requirements_cares_hardware_accelerated(
    registry: &ValueRegistry<PixelFormatRequirements>,
    h: Option<Handle>,
) -> (r: bool)
    ensures
        r == (registry.live_opt(h) && registry.value_opt(h).hardware_accelerated is Some),
{
    match h {
        None => false,
        Some(h) => match registry.get(h) {
            None => false,
            Some(reqs) => reqs.hardware_accelerated.is_some(),
        },
    }
}

/// Whether the request demands hardware acceleration; false when it does not
/// care, or on a null or dead handle.
pub fn glutin_pixel_format_requirements_is_hardware_accelerated(
    registry: &ValueRegistry<PixelFormatRequirements>,
    h: Option<Handle>,
) -> (r: bool)
    ensures
        registry.live_opt(h) ==> r == registry.value_opt(h).hardware_accelerated.unwrap_or(
            false,
        ),
        !registry.live_opt(h) ==> !r,
{
    match h {
        None => false,
        Some(h) => match registry.get(h) {
            None => false,
            Some(reqs) => reqs.hardware_accelerated.unwrap_or(false),
        },
    }
}

/// Whether the request constrains color bits; false on a null or dead handle.
pub fn glutin_pixel_format_requirements_cares_color_bits(
    registry: &ValueRegistry<PixelFormatRequirements>,
    h: Option<Handle>,
) -> (r: bool)
    ensures
        r == (registry.live_opt(h) && registry.value_opt(h).color_bits is Some),
{
    match h {
        None => false,
        Some(h) => match registry.get(h) {
            None => false,
            Some(reqs) => reqs.color_bits.is_some(),
        },
    }
}

/// The requested color bits; zero when unconstrained, or on a null or dead
/// handle.
pub fn glutin_pixel_format_requirements_get_color_bits(
    registry: &ValueRegistry<PixelFormatRequirements>,
    h: Option<Handle>,
) -> (r: u8)
    ensures
        registry.live_opt(h) ==> r == registry.value_opt(h).color_bits.unwrap_or(0),
        !registry.live_opt(h) ==> r == 0,
{
    match h {
        None => 0,
        Some(h) => match registry.get(h) {
            None => 0,
            Some(reqs) => reqs.color_bits.unwrap_or(0),
        },
    }
}

/// Whether a floating-point color buffer is required; false on a null or
/// dead handle.
pub fn glutin_pixel_format_requirements_is_float_color_buffer(
    registry: &ValueRegistry<PixelFormatRequirements>,
    h: Option<Handle>,
) -> (r: bool)
    ensures
        r == (registry.live_opt(h) && registry.value_opt(h).float_color_buffer),
{
    match h {
        None => false,
        Some(h) => match registry.get(h) {
            None => false,
            Some(reqs) => reqs.float_color_buffer,
        },
    }
}

/// Whether the request constrains alpha bits; false on a null or dead handle.
pub fn glutin_pixel_format_requirements_cares_alpha_bits(
    registry: &ValueRegistry<PixelFormatRequirements>,
    h: Option<Handle>,
) -> (r: bool)
    ensures
        r == (registry.live_opt(h) && registry.value_opt(h).alpha_bits is Some),
{
    match h {
        None => false,
        Some(h) => match registry.get(h) {
            None => false,
            Some(reqs) => reqs.alpha_bits.is_some(),
        },
    }
}

/// The requested alpha bits; zero when unconstrained, or on a null or dead
/// handle.
pub fn glutin_pixel_format_requirements_get_alpha_bits(
    registry: &ValueRegistry<PixelFormatRequirements>,
    h: Option<Handle>,
) -> (r: u8)
    ensures
        registry.live_opt(h) ==> r == registry.value_opt(h).alpha_bits.unwrap_or(0),
        !registry.live_opt(h) ==> r == 0,
{
    match h {
        None => 0,
        Some(h) => match registry.get(h) {
            None => 0,
            Some(reqs) => reqs.alpha_bits.unwrap_or(0),
        },
    }
}

/// Whether the request constrains depth bits; false on a null or dead handle.
pub fn glutin_pixel_format_requirements_cares_depth_bits(
    registry: &ValueRegistry<PixelFormatRequirements>,
    h: Option<Handle>,
) -> (r: bool)
    ensures
        r == (registry.live_opt(h) && registry.value_opt(h).depth_bits is Some),
{
    match h {
        None => false,
        Some(h) => match registry.get(h) {
            None => false,
            Some(reqs) => reqs.depth_bits.is_some(),
        },
    }
}

/// The requested depth bits; zero when unconstrained, or on a null or dead
/// handle.
pub fn glutin_pixel_format_requirements_get_depth_bits(
    registry: &ValueRegistry<PixelFormatRequirements>,
    h: Option<Handle>,
) -> (r: u8)
    ensures
        registry.live_opt(h) ==> r == registry.value_opt(h).depth_bits.unwrap_or(0),
        !registry.live_opt(h) ==> r == 0,
{
    match h {
        None => 0,
        Some(h) => match registry.get(h) {
            None => 0,
            Some(reqs) => reqs.depth_bits.unwrap_or(0),
        },
    }
}

/// Whether the request constrains stencil bits; false on a null or dead
/// handle.
pub fn glutin_pixel_format_requirements_cares_stencil_bits(
    registry: &ValueRegistry<PixelFormatRequirements>,
    h: Option<Handle>,
) -> (r: bool)
    ensures
        r == (registry.live_opt(h) && registry.value_opt(h).stencil_bits is Some),
{
    match h {
        None => false,
        Some(h) => match registry.get(h) {
            None => false,
            Some(reqs) => reqs.stencil_bits.is_some(),
        },
    }
}

/// The requested stencil bits; zero when unconstrained, or on a null or dead
/// handle.
pub fn glutin_pixel_format_requirements_get_stencil_bits(
    registry: &ValueRegistry<PixelFormatRequirements>,
    h: Option<Handle>,
) -> (r: u8)
    ensures
        registry.live_opt(h) ==> r == registry.value_opt(h).stencil_bits.unwrap_or(0),
        !registry.live_opt(h) ==> r == 0,
{
    match h {
        None => 0,
        Some(h) => match registry.get(h) {
            None => 0,
            Some(reqs) => reqs.stencil_bits.unwrap_or(0),
        },
    }
}

/// Whether the request constrains double buffering; false on a null or dead
/// handle.
pub fn glutin_pixel_format_requirements_cares_double_buffer(
    registry: &ValueRegistry<PixelFormatRequirements>,
    h: Option<Handle>,
) -> (r: bool)
    ensures
        r == (registry.live_opt(h) && registry.value_opt(h).double_buffer is Some),
{
    match h {
        None => false,
        Some(h) => match registry.get(h) {
            None => false,
            Some(reqs) => reqs.double_buffer.is_some(),
        },
    }
}

/// Whether double buffering is demanded; false when unconstrained, or on a
/// null or dead handle.
pub fn glutin_pixel_format_requirements_is_double_buffer(
    registry: &ValueRegistry<PixelFormatRequirements>,
    h: Option<Handle>,
) -> (r: bool)
    ensures
        registry.live_opt(h) ==> r == registry.value_opt(h).double_buffer.unwrap_or(false),
        !registry.live_opt(h) ==> !r,
{
    match h {
        None => false,
        Some(h) => match registry.get(h) {
            None => false,
            Some(reqs) => reqs.double_buffer.unwrap_or(false),
        },
    }
}

/// Whether the request asks for multisampling; false on a null or dead
/// handle.
pub fn glutin_pixel_format_requirements_cares_multisampling(
    registry: &ValueRegistry<PixelFormatRequirements>,
    h: Option<Handle>,
) -> (r: bool)
    ensures
        r == (registry.live_opt(h) && registry.value_opt(h).multisampling is Some),
{
    match h {
        None => false,
        Some(h) => match registry.get(h) {
            None => false,
            Some(reqs) => reqs.multisampling.is_some(),
        },
    }
}

/// The requested sample count; zero when unconstrained, or on a null or dead
/// handle.
pub fn glutin_pixel_format_requirements_get_multisampling(
    registry: &ValueRegistry<PixelFormatRequirements>,
    h: Option<Handle>,
) -> (r: u16)
    ensures
        registry.live_opt(h) ==> r == registry.value_opt(h).multisampling.unwrap_or(0),
        !registry.live_opt(h) ==> r == 0,
{
    match h {
        None => 0,
        Some(h) => match registry.get(h) {
            None => 0,
            Some(reqs) => reqs.multisampling.unwrap_or(0),
        },
    }
}

/// Whether a stereoscopic format is required; false on a null or dead handle.
pub fn glutin_pixel_format_requirements_is_stereoscopy(
    registry: &ValueRegistry<PixelFormatRequirements>,
    h: Option<Handle>,
) -> (r: bool)
    ensures
        r == (registry.live_opt(h) && registry.value_opt(h).stereoscopy),
{
    match h {
        None => false,
        Some(h) => match registry.get(h) {
            None => false,
            Some(reqs) => reqs.stereoscopy,
        },
    }
}

/// Whether an sRGB-capable format is required; false on a null or dead
/// handle.
pub fn glutin_pixel_format_requirements_is_srgb(
    registry: &ValueRegistry<PixelFormatRequirements>,
    h: Option<Handle>,
) -> (r: bool)
    ensures
        r == (registry.live_opt(h) && registry.value_opt(h).srgb),
{
    match h {
        None => false,
        Some(h) => match registry.get(h) {
            None => false,
            Some(reqs) => reqs.srgb,
        },
    }
}

/// Drops the boxed request; a null or dead handle is a no-op.
pub fn glutin_pixel_format_requirements_drop(
    registry: &mut ValueRegistry<PixelFormatRequirements>,
    h: Option<Handle>,
)
    ensures
        old(registry).live_opt(h) ==> final(registry)@ == old(registry)@.update(
            h->Some_0.index as int,
            None::<PixelFormatRequirements>,
        ),
        !old(registry).live_opt(h) ==> final(registry)@ == old(registry)@,
{
    match h {
        None => (),
        Some(h) => {
            registry.release(h);
        },
    }
}

} // verus!
