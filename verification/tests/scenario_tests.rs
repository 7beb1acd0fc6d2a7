//! End-to-end scenarios across the whole handle lifecycle.

use glutin_shim::bridge::ValueRegistry;
use glutin_shim::context_builder::{
    glutin_context_builder_default, glutin_context_builder_with_depth_buffer,
    glutin_context_builder_with_gl_latest, glutin_context_builder_with_gl_profile_core,
    glutin_context_builder_with_multisampling, glutin_context_builder_with_shared_headless_context,
    glutin_context_builder_with_stencil_buffer, GlutinContextBuilder,
};
use glutin_shim::error::CreationError;
use glutin_shim::event_loop::{GlutinEventLoop, GlutinEventLoopType};
use glutin_shim::headless_context::{
    glutin_context_get_api, glutin_context_get_proc_address, glutin_context_is_current,
    glutin_context_make_current, glutin_create_headless_context, glutin_destroy_context,
    GlutinHeadlessContext, NativeContextInfo,
};
use glutin_shim::pixel_format::PixelFormat;
use glutin_shim::ContextApi;

fn offscreen_format() -> PixelFormat {
    PixelFormat {
        hardware_accelerated: true,
        color_bits: 24,
        alpha_bits: 8,
        depth_bits: 24,
        stencil_bits: 8,
        stereoscopy: false,
        double_buffer: false,
        multisampling: None,
        srgb: true,
    }
}

fn info(id: u64) -> NativeContextInfo {
    NativeContextInfo { id, api: ContextApi::OpenGl, pixel_format: offscreen_format() }
}

/// Build a default builder, request the latest GL version with a core
/// profile, a 24-bit depth buffer, an 8-bit stencil buffer and no
/// multisampling, create a headless context against a live event loop, make
/// it current, look up a GL symbol, and destroy the handle.
#[test]
fn headless_lifecycle_end_to_end() {
    let mut event_loops: ValueRegistry<GlutinEventLoop> = ValueRegistry::new();
    let mut builders: ValueRegistry<GlutinContextBuilder> = ValueRegistry::new();
    let mut contexts: ValueRegistry<GlutinHeadlessContext> = ValueRegistry::new();

    let elh = event_loops.create(GlutinEventLoop::new(GlutinEventLoopType::X11));
    let bh = glutin_context_builder_default(&mut builders);
    glutin_context_builder_with_gl_latest(&mut builders, Some(bh));
    glutin_context_builder_with_gl_profile_core(&mut builders, Some(bh));
    glutin_context_builder_with_depth_buffer(&mut builders, Some(bh), 24);
    glutin_context_builder_with_stencil_buffer(&mut builders, Some(bh), 8);
    glutin_context_builder_with_multisampling(&mut builders, Some(bh), 0);

    let outcomes = vec![Ok(info(100)), Ok(info(101))];
    let ch = glutin_create_headless_context(
        &event_loops,
        &mut builders,
        &mut contexts,
        Some(elh),
        Some(bh),
        &outcomes,
    )
    .expect("creation succeeds");

    assert!(
        !glutin_context_is_current(&contexts, Some(ch)),
        "the resulting handle starts not current"
    );
    assert_eq!(glutin_context_make_current(&mut contexts, Some(ch), Ok(())), None);
    assert!(glutin_context_is_current(&contexts, Some(ch)));

    let api = glutin_context_get_api(&contexts, Some(ch));
    assert!(api == ContextApi::OpenGl || api == ContextApi::OpenGlEs);

    // The platform loader resolved the symbol to a non-null address; the
    // current handle passes it through.
    let gl_clear = glutin_context_get_proc_address(&contexts, Some(ch), 0x7F00_1234);
    assert_ne!(gl_clear, 0);

    glutin_destroy_context(&mut contexts, Some(ch));
    assert!(!contexts.is_live(ch));
}

/// Create context A headless, make it current, then create context B from a
/// builder that shares with A: the construction path must not error, and B
/// records A's native context as its sharing source in either of A's states.
#[test]
fn shared_context_creation_against_a_current_peer() {
    let mut event_loops: ValueRegistry<GlutinEventLoop> = ValueRegistry::new();
    let mut builders: ValueRegistry<GlutinContextBuilder> = ValueRegistry::new();
    let mut contexts: ValueRegistry<GlutinHeadlessContext> = ValueRegistry::new();

    let elh = event_loops.create(GlutinEventLoop::new(GlutinEventLoopType::Wayland));

    let a_builder = glutin_context_builder_default(&mut builders);
    let a_outcomes = vec![Ok(info(201)), Ok(info(202)), Ok(info(203))];
    let a = glutin_create_headless_context(
        &event_loops,
        &mut builders,
        &mut contexts,
        Some(elh),
        Some(a_builder),
        &a_outcomes,
    )
    .expect("context A is created");
    assert_eq!(glutin_context_make_current(&mut contexts, Some(a), Ok(())), None);
    assert!(glutin_context_is_current(&contexts, Some(a)));

    let b_builder = glutin_context_builder_default(&mut builders);
    glutin_context_builder_with_shared_headless_context(
        &mut builders,
        &contexts,
        Some(b_builder),
        Some(a),
    );
    let shared = builders
        .get(b_builder)
        .expect("builder B is live")
        .attributes()
        .sharing;
    assert_eq!(shared, Some(201), "B shares with A's native context");

    let b_outcomes = vec![
        Err(CreationError::NotSupported(String::from("no surfaceless support"))),
        Ok(info(300)),
        Ok(info(301)),
    ];
    let b = glutin_create_headless_context(
        &event_loops,
        &mut builders,
        &mut contexts,
        Some(elh),
        Some(b_builder),
        &b_outcomes,
    )
    .expect("context B is created despite the surfaceless failure");

    let b_value = *contexts.get(b).expect("context B is live");
    match b_value {
        GlutinHeadlessContext::NotCurrent(native) => {
            assert_eq!(native.shared_with, Some(201));
            assert_eq!(native.id, 300);
        }
        GlutinHeadlessContext::PossiblyCurrent(_) => panic!("B starts not current"),
    }

    // Sharing works against a not-current peer as well.
    glutin_context_make_current(
        &mut contexts,
        Some(a),
        Err(glutin_shim::error::ContextError::ContextLost),
    );
    let c_builder = glutin_context_builder_default(&mut builders);
    glutin_context_builder_with_shared_headless_context(
        &mut builders,
        &contexts,
        Some(c_builder),
        Some(a),
    );
    assert_eq!(
        builders.get(c_builder).expect("builder C is live").attributes().sharing,
        Some(201)
    );
}
