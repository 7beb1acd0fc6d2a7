//! The headless context state machine and the ordered creation fallback.

use glutin_shim::bridge::ValueRegistry;
use glutin_shim::context_builder::GlutinContextBuilder;
use glutin_shim::error::{ContextError, CreationError};
use glutin_shim::event_loop::{GlutinEventLoop, GlutinEventLoopType};
use glutin_shim::headless_context::{
    create_headless_context, glutin_context_get_api, glutin_context_get_proc_address,
    glutin_context_is_current, glutin_context_make_current, glutin_create_headless_context,
    glutin_destroy_context, glutin_try_headless_context, headless_plan, GlutinHeadlessContext,
    HeadlessMethod, NativeContext, NativeContextInfo,
};
use glutin_shim::pixel_format::PixelFormat;
use glutin_shim::ContextApi;

fn plain_format() -> PixelFormat {
    PixelFormat {
        hardware_accelerated: false,
        color_bits: 24,
        alpha_bits: 8,
        depth_bits: 24,
        stencil_bits: 8,
        stereoscopy: false,
        double_buffer: false,
        multisampling: None,
        srgb: false,
    }
}

fn info(id: u64) -> NativeContextInfo {
    NativeContextInfo { id, api: ContextApi::OpenGl, pixel_format: plain_format() }
}

fn not_current(id: u64) -> GlutinHeadlessContext {
    GlutinHeadlessContext::NotCurrent(NativeContext {
        id,
        api: ContextApi::OpenGl,
        pixel_format: plain_format(),
        shared_with: None,
        bound: false,
    })
}

#[test]
fn make_current_success_moves_to_possibly_current() {
    let (context, error) = not_current(1).make_current(Ok(()));
    assert!(error.is_none());
    assert!(matches!(context, GlutinHeadlessContext::PossiblyCurrent(_)));
    assert!(context.is_current());
    assert_eq!(context.native_id(), 1);
}

#[test]
fn make_current_failure_returns_the_original_state_and_the_error() {
    let (context, error) =
        not_current(2).make_current(Err(ContextError::OsError(String::from("no display"))));
    assert_eq!(error, Some(ContextError::OsError(String::from("no display"))));
    assert!(matches!(context, GlutinHeadlessContext::NotCurrent(_)));
    assert!(!context.is_current());
    assert_eq!(context.native_id(), 2);
}

#[test]
fn reaffirming_currency_can_fail_without_losing_the_handle() {
    let (current, _) = not_current(3).make_current(Ok(()));
    let (after, error) = current.make_current(Err(ContextError::ContextLost));
    assert_eq!(error, Some(ContextError::ContextLost));
    assert!(matches!(after, GlutinHeadlessContext::PossiblyCurrent(_)));
    assert!(!after.is_current());
}

#[test]
fn proc_address_is_refused_on_a_not_current_handle() {
    let context = not_current(4);
    assert_eq!(
        context.get_proc_address(0xBEEF),
        Err(ContextError::FunctionUnavailable)
    );
    let (current, _) = context.make_current(Ok(()));
    assert_eq!(current.get_proc_address(0xBEEF), Ok(0xBEEF));
}

#[test]
fn plans_follow_the_backend() {
    assert_eq!(
        headless_plan(GlutinEventLoopType::Wayland),
        vec![HeadlessMethod::Surfaceless, HeadlessMethod::Pbuffer, HeadlessMethod::Osmesa]
    );
    assert_eq!(
        headless_plan(GlutinEventLoopType::X11),
        vec![HeadlessMethod::Pbuffer, HeadlessMethod::Osmesa]
    );
    assert_eq!(headless_plan(GlutinEventLoopType::Windows), vec![HeadlessMethod::Pbuffer]);
    assert_eq!(headless_plan(GlutinEventLoopType::MacOS), vec![HeadlessMethod::Pbuffer]);
    assert_eq!(headless_plan(GlutinEventLoopType::Unknown), vec![HeadlessMethod::Pbuffer]);
}

#[test]
fn surfaceless_failure_falls_back_to_pbuffer_with_one_recorded_failure() {
    let outcomes = vec![
        Err(CreationError::NotSupported(String::from("no surfaceless support"))),
        Ok(info(11)),
        Err(CreationError::NotSupported(String::from("unused"))),
    ];
    let creation = create_headless_context(
        GlutinContextBuilder::new(),
        GlutinEventLoopType::Wayland,
        &outcomes,
    )
    .expect("pbuffer should succeed");
    assert_eq!(creation.failures.len(), 1);
    assert_eq!(
        creation.failures[0],
        (
            HeadlessMethod::Surfaceless,
            CreationError::NotSupported(String::from("no surfaceless support"))
        )
    );
    assert_eq!(creation.context, not_current(11));
}

#[test]
fn x11_skips_surfaceless_outright() {
    let outcomes = vec![Ok(info(12)), Ok(info(99))];
    let creation =
        create_headless_context(GlutinContextBuilder::new(), GlutinEventLoopType::X11, &outcomes)
            .expect("pbuffer should succeed");
    assert_eq!(creation.failures.len(), 0);
    assert_eq!(creation.context, not_current(12));
}

#[test]
fn when_every_method_fails_each_attempt_is_reported() {
    let outcomes = vec![
        Err(CreationError::NotSupported(String::from("no egl"))),
        Err(CreationError::NoAvailablePixelFormat),
        Err(CreationError::NoBackendAvailable(String::from("no software rasterizer"))),
    ];
    let failure = create_headless_context(
        GlutinContextBuilder::new(),
        GlutinEventLoopType::Wayland,
        &outcomes,
    )
    .expect_err("every method fails");
    assert_eq!(failure.errors.len(), 3);
    assert_eq!(
        failure.errors[0],
        (HeadlessMethod::Surfaceless, CreationError::NotSupported(String::from("no egl")))
    );
    assert_eq!(
        failure.errors[1],
        (HeadlessMethod::Pbuffer, CreationError::NoAvailablePixelFormat)
    );
    assert_eq!(
        failure.errors[2],
        (
            HeadlessMethod::Osmesa,
            CreationError::NoBackendAvailable(String::from("no software rasterizer"))
        )
    );
}

#[test]
fn on_a_pbuffer_only_backend_a_single_failure_is_terminal() {
    let outcomes = vec![Err(CreationError::OsError(String::from("lost connection")))];
    let failure = create_headless_context(
        GlutinContextBuilder::new(),
        GlutinEventLoopType::Windows,
        &outcomes,
    )
    .expect_err("the only method fails");
    assert_eq!(failure.errors.len(), 1);
    assert_eq!(
        failure.errors[0],
        (HeadlessMethod::Pbuffer, CreationError::OsError(String::from("lost connection")))
    );
}

#[test]
fn create_entry_consumes_the_builder_and_boxes_the_context() {
    let mut event_loops: ValueRegistry<GlutinEventLoop> = ValueRegistry::new();
    let mut builders: ValueRegistry<GlutinContextBuilder> = ValueRegistry::new();
    let mut contexts: ValueRegistry<GlutinHeadlessContext> = ValueRegistry::new();
    let elh = event_loops.create(GlutinEventLoop::new(GlutinEventLoopType::X11));
    let bh = builders.create(GlutinContextBuilder::new());
    let outcomes = vec![Ok(info(21)), Ok(info(22))];
    let ch = glutin_create_headless_context(
        &event_loops,
        &mut builders,
        &mut contexts,
        Some(elh),
        Some(bh),
        &outcomes,
    )
    .expect("creation should succeed");
    assert!(!builders.is_live(bh), "the builder is consumed exactly once");
    assert!(contexts.is_live(ch));
    assert!(!glutin_context_is_current(&contexts, Some(ch)));
    assert_eq!(glutin_context_get_api(&contexts, Some(ch)), ContextApi::OpenGl);
}

#[test]
fn create_entry_is_null_safe() {
    let event_loops: ValueRegistry<GlutinEventLoop> = ValueRegistry::new();
    let mut builders: ValueRegistry<GlutinContextBuilder> = ValueRegistry::new();
    let mut contexts: ValueRegistry<GlutinHeadlessContext> = ValueRegistry::new();
    let outcomes = vec![Ok(info(31))];
    let r = glutin_create_headless_context(
        &event_loops,
        &mut builders,
        &mut contexts,
        None,
        None,
        &outcomes,
    );
    assert_eq!(r, None);
}

#[test]
fn try_entry_probes_without_retaining_anything() {
    let mut event_loops: ValueRegistry<GlutinEventLoop> = ValueRegistry::new();
    let mut builders: ValueRegistry<GlutinContextBuilder> = ValueRegistry::new();
    let elh = event_loops.create(GlutinEventLoop::new(GlutinEventLoopType::Windows));
    let bh = builders.create(GlutinContextBuilder::new());
    let good = vec![Ok(info(41))];
    assert!(glutin_try_headless_context(&event_loops, &builders, Some(elh), Some(bh), &good));
    assert!(builders.is_live(bh), "the probe does not consume the builder");
    let bad = vec![Err::<NativeContextInfo, _>(CreationError::NoAvailablePixelFormat)];
    assert!(!glutin_try_headless_context(&event_loops, &builders, Some(elh), Some(bh), &bad));
    assert!(!glutin_try_headless_context(&event_loops, &builders, None, Some(bh), &good));
}

#[test]
fn context_entry_points_are_null_safe_and_track_state() {
    let mut contexts: ValueRegistry<GlutinHeadlessContext> = ValueRegistry::new();
    assert!(!glutin_context_is_current(&contexts, None));
    assert_eq!(glutin_context_get_api(&contexts, None), ContextApi::Unknown);
    assert_eq!(glutin_context_get_proc_address(&contexts, None, 0x1234), 0);

    let h = contexts.create(not_current(51));
    assert_eq!(glutin_context_get_proc_address(&contexts, Some(h), 0x1234), 0);
    assert_eq!(glutin_context_make_current(&mut contexts, Some(h), Ok(())), None);
    assert!(glutin_context_is_current(&contexts, Some(h)));
    assert_eq!(glutin_context_get_proc_address(&contexts, Some(h), 0x1234), 0x1234);

    let error = glutin_context_make_current(
        &mut contexts,
        Some(h),
        Err(ContextError::ContextLost),
    );
    assert_eq!(error, Some(ContextError::ContextLost));
    assert!(!glutin_context_is_current(&contexts, Some(h)));

    glutin_destroy_context(&mut contexts, Some(h));
    assert!(!contexts.is_live(h));
    glutin_destroy_context(&mut contexts, Some(h));
    glutin_destroy_context(&mut contexts, None);
}
