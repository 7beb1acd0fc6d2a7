//! The context builder: accumulates the attributes a caller wants from a GL
//! context before any native context exists.
//!
//! Every mutation consumes the builder and returns it, so a builder is used
//! linearly and consumed exactly once by context creation. The builder
//! carries the current-state marker of whatever context it was derived from
//! by sharing; sharing is the one operation that accepts a peer context in
//! either state.

use vstd::prelude::*;

use crate::bridge::Handle;
use crate::bridge::ValueRegistry;
use crate::headless_context::GlutinHeadlessContext;
use crate::pixel_format_requirements::default_pixel_format_requirements;
use crate::pixel_format_requirements::PixelFormatRequirements;

verus! {

/// Which GL version a caller asks for.
#[derive(Debug, Clone, Copy, PartialEq, Eq, Structural)]
pub enum GlRequest {
    /// The newest version the platform can provide.
    Latest,
    /// An explicit API and version.
    Specific {
        /// The requested API family.
        api: crate::ContextApi,
        /// Requested major version.
        major: u8,
        /// Requested minor version.
        minor: u8,
    },
    /// Try desktop GL at the given version first; fall back to GL ES
    /// transparently when desktop GL is unavailable.
    GlThenGles {
        /// Major version of the desktop GL attempt.
        gl_major: u8,
        /// Minor version of the desktop GL attempt.
        gl_minor: u8,
        /// Major version of the GL ES fallback.
        gles_major: u8,
        /// Minor version of the GL ES fallback.
        gles_minor: u8,
    },
}

/// Which GL profile a caller asks for.
#[derive(Debug, Clone, Copy, PartialEq, Eq, Structural)]
pub enum GlProfile {
    /// The core profile: deprecated functions removed.
    Core,
    /// The compatibility profile: deprecated functions kept.
    Compatibility,
}

/// How robust the requested context must be against GPU resets.
#[derive(Debug, Clone, Copy, PartialEq, Eq, Structural)]
pub enum Robustness {
    /// No robustness requested; the platform default.
    NotRobust,
    /// No error checking at all, for a small speed gain.
    NoError,
    /// Robust if available, without reset notification.
    TryRobustNoResetNotification,
    /// Robust, without reset notification; creation fails if unavailable.
    RobustNoResetNotification,
    /// Robust if available, losing the context on reset.
    TryRobustLoseContextOnReset,
    /// Robust, losing the context on reset; creation fails if unavailable.
    RobustLoseContextOnReset,
}

/// The attributes a builder has accumulated.
#[derive(Debug, Clone, Copy, PartialEq, Eq, Structural)]
pub struct BuilderAttribs {
    /// The requested GL version.
    pub gl_request: GlRequest,
    /// The requested profile, when the caller cares.
    pub profile: Option<GlProfile>,
    /// The requested robustness behaviour.
    pub robustness: Robustness,
    /// Whether buffer swaps wait for vertical sync.
    pub vsync: bool,
    /// The native id of a context the new one must share GL object
    /// namespaces with, recorded by the sharing operation.
    pub sharing: Option<u64>,
    /// The accumulated pixel format request.
    pub pf_reqs: PixelFormatRequirements,
}

/// The attributes a freshly made builder starts from.
pub open spec fn default_builder_attribs() -> BuilderAttribs {
    BuilderAttribs {
        gl_request: GlRequest::Latest,
        profile: None,
        robustness: Robustness::NotRobust,
        vsync: false,
        sharing: None,
        pf_reqs: default_pixel_format_requirements(),
    }
}

/// A context builder, carrying the current-state marker of the context it
/// was possibly derived from by sharing.
#[derive(Debug, Clone, Copy, PartialEq, Eq, Structural)]
pub enum GlutinContextBuilder {
    /// Derived from no context, or from a `NotCurrent` one.
    NotCurrent(BuilderAttribs),
    /// Derived, by sharing, from a `PossiblyCurrent` context.
    PossiblyCurrent(BuilderAttribs),
}

impl GlutinContextBuilder {
    /// The attributes accumulated so far, whatever the marker.
    pub open spec fn attribs(self) -> BuilderAttribs {
        match self {
            GlutinContextBuilder::NotCurrent(a) => a,
            GlutinContextBuilder::PossiblyCurrent(a) => a,
        }
    }

    /// A builder with the same marker and the given attributes.
    pub open spec fn with_attribs(self, a: BuilderAttribs) -> GlutinContextBuilder {
        match self {
            GlutinContextBuilder::NotCurrent(_) => GlutinContextBuilder::NotCurrent(a),
            GlutinContextBuilder::PossiblyCurrent(_) => GlutinContextBuilder::PossiblyCurrent(a),
        }
    }

    /// A fresh builder: default attributes, `NotCurrent` marker.
    pub fn new() -> (r: GlutinContextBuilder)
        ensures
            r == GlutinContextBuilder::NotCurrent(default_builder_attribs()),
    {
        GlutinContextBuilder::NotCurrent(
            BuilderAttribs {
                gl_request: GlRequest::Latest,
                profile: None,
                robustness: Robustness::NotRobust,
                vsync: false,
                sharing: None,
                pf_reqs: PixelFormatRequirements::new_default(),
            },
        )
    }

    /// Reads the attributes out of a builder in either state.
    pub fn attributes(&self) -> (r: BuilderAttribs)
        ensures
            r == self.attribs(),
    {
        match self {
            GlutinContextBuilder::NotCurrent(a) => *a,
            GlutinContextBuilder::PossiblyCurrent(a) => *a,
        }
    }

    /// Replaces only the attributes, keeping the marker.
    fn map_attribs(self, a: BuilderAttribs) -> (r: GlutinContextBuilder)
        ensures
            r == self.with_attribs(a),
    {
        match self {
            GlutinContextBuilder::NotCurrent(_) => GlutinContextBuilder::NotCurrent(a),
            GlutinContextBuilder::PossiblyCurrent(_) => GlutinContextBuilder::PossiblyCurrent(a),
        }
    }

    /// Sets the requested GL version.
    pub fn with_gl(self, request: GlRequest) -> (r: GlutinContextBuilder)
        ensures
            r == self.with_attribs(
                BuilderAttribs { gl_request: request, ..self.attribs() },
            ),
    {
        let mut a = self.attributes();
        a.gl_request = request;
        self.map_attribs(a)
    }

    /// Sets the requested profile.
    pub fn with_gl_profile(self, profile: GlProfile) -> (r: GlutinContextBuilder)
        ensures
            r == self.with_attribs(
                BuilderAttribs { profile: Some(profile), ..self.attribs() },
            ),
    {
        let mut a = self.attributes();
        a.profile = Some(profile);
        self.map_attribs(a)
    }

    /// Sets the requested multisampling sample count; zero asks for none.
    pub fn with_multisampling(self, samples: u16) -> (r: GlutinContextBuilder)
        ensures
            samples == 0 ==> r == self.with_attribs(
                BuilderAttribs {
                    pf_reqs: PixelFormatRequirements {
                        multisampling: None,
                        ..self.attribs().pf_reqs
                    },
                    ..self.attribs()
                },
            ),
            samples != 0 ==> r == self.with_attribs(
                BuilderAttribs {
                    pf_reqs: PixelFormatRequirements {
                        multisampling: Some(samples),
                        ..self.attribs().pf_reqs
                    },
                    ..self.attribs()
                },
            ),
    {
        let mut a = self.attributes();
        a.pf_reqs.multisampling = if samples == 0 {
            None
        } else {
            Some(samples)
        };
        self.map_attribs(a)
    }

    /// Sets the requested depth buffer bits.
    pub fn with_depth_buffer(self, bits: u8) -> (r: GlutinContextBuilder)
        ensures
            r == self.with_attribs(
                BuilderAttribs {
                    pf_reqs: PixelFormatRequirements {
                        depth_bits: Some(bits),
                        ..self.attribs().pf_reqs
                    },
                    ..self.attribs()
                },
            ),
    {
        let mut a = self.attributes();
        a.pf_reqs.depth_bits = Some(bits);
        self.map_attribs(a)
    }

    /// Sets the requested stencil buffer bits.
    pub fn with_stencil_buffer(self, bits: u8) -> (r: GlutinContextBuilder)
        ensures
            r == self.with_attribs(
                BuilderAttribs {
                    pf_reqs: PixelFormatRequirements {
                        stencil_bits: Some(bits),
                        ..self.attribs().pf_reqs
                    },
                    ..self.attribs()
                },
            ),
    {
        let mut a = self.attributes();
        a.pf_reqs.stencil_bits = Some(bits);
        self.map_attribs(a)
    }

    /// Sets the requested color and alpha bits.
    pub fn with_pixel_format(self, color_bits: u8, alpha_bits: u8) -> (r: GlutinContextBuilder)
        ensures
            r == self.with_attribs(
                BuilderAttribs {
                    pf_reqs: PixelFormatRequirements {
                        color_bits: Some(color_bits),
                        alpha_bits: Some(alpha_bits),
                        ..self.attribs().pf_reqs
                    },
                    ..self.attribs()
                },
            ),
    {
        let mut a = self.attributes();
        a.pf_reqs.color_bits = Some(color_bits);
        a.pf_reqs.alpha_bits = Some(alpha_bits);
        self.map_attribs(a)
    }

    /// Sets whether buffer swaps wait for vertical sync.
    pub fn with_vsync(self, vsync: bool) -> (r: GlutinContextBuilder)
        ensures
            r == self.with_attribs(BuilderAttribs { vsync, ..self.attribs() }),
    {
        let mut a = self.attributes();
        a.vsync = vsync;
        self.map_attribs(a)
    }

    /// Sets whether an sRGB-capable format is required.
    pub fn with_srgb(self, srgb: bool) -> (r: GlutinContextBuilder)
        ensures
            r == self.with_attribs(
                BuilderAttribs {
                    pf_reqs: PixelFormatRequirements { srgb, ..self.attribs().pf_reqs },
                    ..self.attribs()
                },
            ),
    {
        let mut a = self.attributes();
        a.pf_reqs.srgb = srgb;
        self.map_attribs(a)
    }

    /// Constrains double buffering; `None` lets the platform choose.
    pub fn with_double_buffer(self, double_buffer: Option<bool>) -> (r: GlutinContextBuilder)
        ensures
            r == self.with_attribs(
                BuilderAttribs {
                    pf_reqs: PixelFormatRequirements {
                        double_buffer,
                        ..self.attribs().pf_reqs
                    },
                    ..self.attribs()
                },
            ),
    {
        let mut a = self.attributes();
        a.pf_reqs.double_buffer = double_buffer;
        self.map_attribs(a)
    }

    /// Constrains hardware acceleration; `None` takes either.
    pub fn with_hardware_acceleration(
        self,
        acceleration: Option<bool>,
    ) -> (r: GlutinContextBuilder)
        ensures
            r == self.with_attribs(
                BuilderAttribs {
                    pf_reqs: PixelFormatRequirements {
                        hardware_accelerated: acceleration,
                        ..self.attribs().pf_reqs
                    },
                    ..self.attribs()
                },
            ),
    {
        let mut a = self.attributes();
        a.pf_reqs.hardware_accelerated = acceleration;
        self.map_attribs(a)
    }

    /// Records that the new context must share GL object namespaces with the
    /// given headless peer. The peer is accepted in either state, and the
    /// builder takes over the peer's current-state marker.
    pub fn with_shared_lists_headless(
        self,
        context: &GlutinHeadlessContext,
    ) -> (r: GlutinContextBuilder)
        ensures
            r.attribs() == (BuilderAttribs {
                sharing: Some(context.native().id),
                ..self.attribs()
            }),
            r is PossiblyCurrent <==> context is PossiblyCurrent,
    {
        let mut a = self.attributes();
        a.sharing = Some(context.native_id());
        if context.is_possibly_current() {
            GlutinContextBuilder::PossiblyCurrent(a)
        } else {
            GlutinContextBuilder::NotCurrent(a)
        }
    }
}

/// Boxes a fresh default builder and hands the caller its handle.
pub fn glutin_context_builder_default(
    registry: &mut ValueRegistry<GlutinContextBuilder>,
) -> (h: Handle)
    ensures
        final(registry)@ == old(registry)@.push(
            Some(GlutinContextBuilder::NotCurrent(default_builder_attribs())),
        ),
        final(registry).live(h),
{
    registry.create(GlutinContextBuilder::new())
}

/// What an in-place builder mutation leaves in the registry: the same
/// registry with only the builder's own slot replaced by the new builder.
pub open spec fn builder_updated(
    before: Seq<Option<GlutinContextBuilder>>,
    after: Seq<Option<GlutinContextBuilder>>,
    h: Option<Handle>,
    updated: GlutinContextBuilder,
) -> bool {
    after == before.update(h->Some_0.index as int, Some(updated))
}

/// Records sharing with a boxed headless context: the boxed builder takes the
/// peer's native id and marker. A null or dead handle on either side leaves
/// both registries unchanged.
pub fn glutin_context_builder_with_shared_headless_context(
    builders: &mut ValueRegistry<GlutinContextBuilder>,
    contexts: &ValueRegistry<GlutinHeadlessContext>,
    builder_h: Option<Handle>,
    context_h: Option<Handle>,
)
    ensures
        old(builders).live_opt(builder_h) && contexts.live_opt(context_h) ==> {
            let b0 = old(builders).value_opt(builder_h);
            let peer = contexts.value_opt(context_h);
            let b1 = final(builders).value_opt(builder_h);
            &&& builder_updated(old(builders)@, final(builders)@, builder_h, b1)
            &&& b1.attribs() == (BuilderAttribs {
                sharing: Some(peer.native().id),
                ..b0.attribs()
            })
            &&& (b1 is PossiblyCurrent <==> peer is PossiblyCurrent)
        },
        !(old(builders).live_opt(builder_h) && contexts.live_opt(context_h))
            ==> final(builders)@ == old(builders)@,
{
    let (bh, ch) = match (builder_h, context_h) {
        (Some(bh), Some(ch)) => (bh, ch),
        _ => {
            return ;
        },
    };
    let peer = match contexts.get(ch) {
        Some(peer) => *peer,
        None => {
            return ;
        },
    };
    match builders.get(bh) {
        Some(builder) => {
            let updated = (*builder).with_shared_lists_headless(&peer);
            builders.replace(bh, updated);
        },
        None => (),
    }
}

/// Requests "desktop GL, then GL ES" on the boxed builder; a null or dead
/// handle is a no-op.
pub fn glutin_context_builder_with_gl_then_gles(
    registry: &mut ValueRegistry<GlutinContextBuilder>,
    h: Option<Handle>,
    gl_major: u8,
    gl_minor: u8,
    gles_major: u8,
    gles_minor: u8,
)
    ensures
        old(registry).live_opt(h) ==> builder_updated(
            old(registry)@,
            final(registry)@,
            h,
            old(registry).value_opt(h).with_attribs(
                BuilderAttribs {
                    gl_request: GlRequest::GlThenGles { gl_major, gl_minor, gles_major, gles_minor },
                    ..old(registry).value_opt(h).attribs()
                },
            ),
        ),
        !old(registry).live_opt(h) ==> final(registry)@ == old(registry)@,
{
    let h = match h {
        Some(h) => h,
        None => {
            return ;
        },
    };
    match registry.get(h) {
        Some(builder) => {
            let updated = (*builder).with_gl(
                GlRequest::GlThenGles { gl_major, gl_minor, gles_major, gles_minor },
            );
            registry.replace(h, updated);
        },
        None => (),
    }
}

/// Requests the latest GL version on the boxed builder; a null or dead handle
/// is a no-op.
pub fn glutin_context_builder_with_gl_latest(
    registry: &mut ValueRegistry<GlutinContextBuilder>,
    h: Option<Handle>,
)
    ensures
        old(registry).live_opt(h) ==> builder_updated(
            old(registry)@,
            final(registry)@,
            h,
            old(registry).value_opt(h).with_attribs(
                BuilderAttribs {
                    gl_request: GlRequest::Latest,
                    ..old(registry).value_opt(h).attribs()
                },
            ),
        ),
        !old(registry).live_opt(h) ==> final(registry)@ == old(registry)@,
{
    let h = match h {
        Some(h) => h,
        None => {
            return ;
        },
    };
    match registry.get(h) {
        Some(builder) => {
            let updated = (*builder).with_gl(GlRequest::Latest);
            registry.replace(h, updated);
        },
        None => (),
    }
}

/// Requests the core profile on the boxed builder; a null or dead handle is a
/// no-op.
pub fn glutin_context_builder_with_gl_profile_core(
    registry: &mut ValueRegistry<GlutinContextBuilder>,
    h: Option<Handle>,
)
    ensures
        old(registry).live_opt(h) ==> builder_updated(
            old(registry)@,
            final(registry)@,
            h,
            old(registry).value_opt(h).with_attribs(
                BuilderAttribs {
                    profile: Some(GlProfile::Core),
                    ..old(registry).value_opt(h).attribs()
                },
            ),
        ),
        !old(registry).live_opt(h) ==> final(registry)@ == old(registry)@,
{
    let h = match h {
        Some(h) => h,
        None => {
            return ;
        },
    };
    match registry.get(h) {
        Some(builder) => {
            let updated = (*builder).with_gl_profile(GlProfile::Core);
            registry.replace(h, updated);
        },
        None => (),
    }
}

/// Requests the compatibility profile on the boxed builder; a null or dead
/// handle is a no-op.
pub fn glutin_context_builder_with_gl_profile_compatibility(
    registry: &mut ValueRegistry<GlutinContextBuilder>,
    h: Option<Handle>,
)
    ensures
        old(registry).live_opt(h) ==> builder_updated(
            old(registry)@,
            final(registry)@,
            h,
            old(registry).value_opt(h).with_attribs(
                BuilderAttribs {
                    profile: Some(GlProfile::Compatibility),
                    ..old(registry).value_opt(h).attribs()
                },
            ),
        ),
        !old(registry).live_opt(h) ==> final(registry)@ == old(registry)@,
{
    let h = match h {
        Some(h) => h,
        None => {
            return ;
        },
    };
    match registry.get(h) {
        Some(builder) => {
            let updated = (*builder).with_gl_profile(GlProfile::Compatibility);
            registry.replace(h, updated);
        },
        None => (),
    }
}

/// Sets the multisampling request on the boxed builder; a null or dead handle
/// is a no-op.
pub fn glutin_context_builder_with_multisampling(
    registry: &mut ValueRegistry<GlutinContextBuilder>,
    h: Option<Handle>,
    samples: u16,
)
    ensures
        old(registry).live_opt(h) ==> {
            let b0 = old(registry).value_opt(h);
            builder_updated(
                old(registry)@,
                final(registry)@,
                h,
                b0.with_attribs(
                    BuilderAttribs {
                        pf_reqs: PixelFormatRequirements {
                            multisampling: if samples == 0 {
                                None
                            } else {
                                Some(samples)
                            },
                            ..b0.attribs().pf_reqs
                        },
                        ..b0.attribs()
                    },
                ),
            )
        },
        !old(registry).live_opt(h) ==> final(registry)@ == old(registry)@,
{
    let h = match h {
        Some(h) => h,
        None => {
            return ;
        },
    };
    match registry.get(h) {
        Some(builder) => {
            let updated = (*builder).with_multisampling(samples);
            registry.replace(h, updated);
        },
        None => (),
    }
}

/// Sets the depth buffer request on the boxed builder; a null or dead handle
/// is a no-op.
pub fn glutin_context_builder_with_depth_buffer(
    registry: &mut ValueRegistry<GlutinContextBuilder>,
    h: Option<Handle>,
    bits: u8,
)
    ensures
        old(registry).live_opt(h) ==> {
            let b0 = old(registry).value_opt(h);
            builder_updated(
                old(registry)@,
                final(registry)@,
                h,
                b0.with_attribs(
                    BuilderAttribs {
                        pf_reqs: PixelFormatRequirements {
                            depth_bits: Some(bits),
                            ..b0.attribs().pf_reqs
                        },
                        ..b0.attribs()
                    },
                ),
            )
        },
        !old(registry).live_opt(h) ==> final(registry)@ == old(registry)@,
{
    let h = match h {
        Some(h) => h,
        None => {
            return ;
        },
    };
    match registry.get(h) {
        Some(builder) => {
            let updated = (*builder).with_depth_buffer(bits);
            registry.replace(h, updated);
        },
        None => (),
    }
}

/// Sets the stencil buffer request on the boxed builder; a null or dead
/// handle is a no-op.
pub fn glutin_context_builder_with_stencil_buffer(
    registry: &mut ValueRegistry<GlutinContextBuilder>,
    h: Option<Handle>,
    bits: u8,
)
    ensures
        old(registry).live_opt(h) ==> {
            let b0 = old(registry).value_opt(h);
            builder_updated(
                old(registry)@,
                final(registry)@,
                h,
                b0.with_attribs(
                    BuilderAttribs {
                        pf_reqs: PixelFormatRequirements {
                            stencil_bits: Some(bits),
                            ..b0.attribs().pf_reqs
                        },
                        ..b0.attribs()
                    },
                ),
            )
        },
        !old(registry).live_opt(h) ==> final(registry)@ == old(registry)@,
{
    let h = match h {
        Some(h) => h,
        None => {
            return ;
        },
    };
    match registry.get(h) {
        Some(builder) => {
            let updated = (*builder).with_stencil_buffer(bits);
            registry.replace(h, updated);
        },
        None => (),
    }
}

/// Sets the color and alpha bit request on the boxed builder; a null or dead
/// handle is a no-op.
pub fn glutin_context_builder_with_pixel_format(
    registry: &mut ValueRegistry<GlutinContextBuilder>,
    h: Option<Handle>,
    color_bits: u8,
    alpha_bits: u8,
)
    ensures
        old(registry).live_opt(h) ==> {
            let b0 = old(registry).value_opt(h);
            builder_updated(
                old(registry)@,
                final(registry)@,
                h,
                b0.with_attribs(
                    BuilderAttribs {
                        pf_reqs: PixelFormatRequirements {
                            color_bits: Some(color_bits),
                            alpha_bits: Some(alpha_bits),
                            ..b0.attribs().pf_reqs
                        },
                        ..b0.attribs()
                    },
                ),
            )
        },
        !old(registry).live_opt(h) ==> final(registry)@ == old(registry)@,
{
    let h = match h {
        Some(h) => h,
        None => {
            return ;
        },
    };
    match registry.get(h) {
        Some(builder) => {
            let updated = (*builder).with_pixel_format(color_bits, alpha_bits);
            registry.replace(h, updated);
        },
        None => (),
    }
}

/// Sets the vsync flag on the boxed builder; a null or dead handle is a
/// no-op.
pub fn glutin_context_builder_with_vsync(
    registry: &mut ValueRegistry<GlutinContextBuilder>,
    h: Option<Handle>,
    vsync: bool,
)
    ensures
        old(registry).live_opt(h) ==> {
            let b0 = old(registry).value_opt(h);
            builder_updated(
                old(registry)@,
                final(registry)@,
                h,
                b0.with_attribs(BuilderAttribs { vsync, ..b0.attribs() }),
            )
        },
        !old(registry).live_opt(h) ==> final(registry)@ == old(registry)@,
{
    let h = match h {
        Some(h) => h,
        None => {
            return ;
        },
    };
    match registry.get(h) {
        Some(builder) => {
            let updated = (*builder).with_vsync(vsync);
            registry.replace(h, updated);
        },
        None => (),
    }
}

/// Sets the sRGB request on the boxed builder; a null or dead handle is a
/// no-op.
pub fn glutin_context_builder_with_srgb(
    registry: &mut ValueRegistry<GlutinContextBuilder>,
    h: Option<Handle>,
    srgb_enabled: bool,
)
    ensures
        old(registry).live_opt(h) ==> {
            let b0 = old(registry).value_opt(h);
            builder_updated(
                old(registry)@,
                final(registry)@,
                h,
                b0.with_attribs(
                    BuilderAttribs {
                        pf_reqs: PixelFormatRequirements {
                            srgb: srgb_enabled,
                            ..b0.attribs().pf_reqs
                        },
                        ..b0.attribs()
                    },
                ),
            )
        },
        !old(registry).live_opt(h) ==> final(registry)@ == old(registry)@,
{
    let h = match h {
        Some(h) => h,
        None => {
            return ;
        },
    };
    match registry.get(h) {
        Some(builder) => {
            let updated = (*builder).with_srgb(srgb_enabled);
            registry.replace(h, updated);
        },
        None => (),
    }
}

/// Demands or forbids double buffering on the boxed builder; a null or dead
/// handle is a no-op.
pub fn glutin_context_builder_with_double_buffer(
    registry: &mut ValueRegistry<GlutinContextBuilder>,
    h: Option<Handle>,
    double_buffer_enabled: bool,
)
    ensures
        old(registry).live_opt(h) ==> {
            let b0 = old(registry).value_opt(h);
            builder_updated(
                old(registry)@,
                final(registry)@,
                h,
                b0.with_attribs(
                    BuilderAttribs {
                        pf_reqs: PixelFormatRequirements {
                            double_buffer: Some(double_buffer_enabled),
                            ..b0.attribs().pf_reqs
                        },
                        ..b0.attribs()
                    },
                ),
            )
        },
        !old(registry).live_opt(h) ==> final(registry)@ == old(registry)@,
{
    let h = match h {
        Some(h) => h,
        None => {
            return ;
        },
    };
    match registry.get(h) {
        Some(builder) => {
            let updated = (*builder).with_double_buffer(Some(double_buffer_enabled));
            registry.replace(h, updated);
        },
        None => (),
    }
}

/// Demands or forbids hardware acceleration on the boxed builder; a null or
/// dead handle is a no-op.
pub fn glutin_context_builder_with_hardware_acceleration(
    registry: &mut ValueRegistry<GlutinContextBuilder>,
    h: Option<Handle>,
    hardware_acceleration_enabled: bool,
)
    ensures
        old(registry).live_opt(h) ==> {
            let b0 = old(registry).value_opt(h);
            builder_updated(
                old(registry)@,
                final(registry)@,
                h,
                b0.with_attribs(
                    BuilderAttribs {
                        pf_reqs: PixelFormatRequirements {
                            hardware_accelerated: Some(hardware_acceleration_enabled),
                            ..b0.attribs().pf_reqs
                        },
                        ..b0.attribs()
                    },
                ),
            )
        },
        !old(registry).live_opt(h) ==> final(registry)@ == old(registry)@,
{
    let h = match h {
        Some(h) => h,
        None => {
            return ;
        },
    };
    match registry.get(h) {
        Some(builder) => {
            let updated = (*builder).with_hardware_acceleration(Some(hardware_acceleration_enabled));
            registry.replace(h, updated);
        },
        None => (),
    }
}

/// Removes any hardware acceleration constraint on the boxed builder; a null
/// or dead handle is a no-op.
pub fn glutin_context_builder_with_any_hardware_acceleration(
    registry: &mut ValueRegistry<GlutinContextBuilder>,
    h: Option<Handle>,
)
    ensures
        old(registry).live_opt(h) ==> {
            let b0 = old(registry).value_opt(h);
            builder_updated(
                old(registry)@,
                final(registry)@,
                h,
                b0.with_attribs(
                    BuilderAttribs {
                        pf_reqs: PixelFormatRequirements {
                            hardware_accelerated: None,
                            ..b0.attribs().pf_reqs
                        },
                        ..b0.attribs()
                    },
                ),
            )
        },
        !old(registry).live_opt(h) ==> final(registry)@ == old(registry)@,
{
    let h = match h {
        Some(h) => h,
        None => {
            return ;
        },
    };
    match registry.get(h) {
        Some(builder) => {
            let updated = (*builder).with_hardware_acceleration(None);
            registry.replace(h, updated);
        },
        None => (),
    }
}

/// Copies the boxed builder's accumulated pixel format request into a fresh
/// box of its own and hands the caller the new handle; null on a null or dead
/// builder handle, with the requirements registry unchanged.
pub fn glutin_context_builder_get_pixel_format_requirements(
    builders: &ValueRegistry<GlutinContextBuilder>,
    requirements: &mut ValueRegistry<PixelFormatRequirements>,
    h: Option<Handle>,
) -> (r: Option<Handle>)
    ensures
        builders.live_opt(h) ==> {
            &&& r matches Some(rh)
            &&& final(requirements)@ == old(requirements)@.push(
                Some(builders.value_opt(h).attribs().pf_reqs),
            )
            &&& final(requirements).live(rh)
            &&& final(requirements).value_of(rh) == builders.value_opt(h).attribs().pf_reqs
        },
        !builders.live_opt(h) ==> r is None && final(requirements)@ == old(requirements)@,
{
    let h = match h {
        Some(h) => h,
        None => {
            return None;
        },
    };
    match builders.get(h) {
        Some(builder) => {
            let reqs = builder.attributes().pf_reqs;
            Some(requirements.create(reqs))
        },
        None => None,
    }
}

/// Drops the boxed builder; a null or dead handle is a no-op.
pub fn glutin_destroy_context_builder(
    registry: &mut ValueRegistry<GlutinContextBuilder>,
    h: Option<Handle>,
)
    ensures
        old(registry).live_opt(h) ==> final(registry)@ == old(registry)@.update(
            h->Some_0.index as int,
            None::<GlutinContextBuilder>,
        ),
        !old(registry).live_opt(h) ==> final(registry)@ == old(registry)@,
{
    match h {
        None => (),
        Some(h) => {
            registry.release(h);
        },
    }
}

} // verus!
