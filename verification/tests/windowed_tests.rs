//! The windowed context handle: typestate, window accessors and destruction.

use glutin_shim::bridge::ValueRegistry;
use glutin_shim::context_builder::GlutinContextBuilder;
use glutin_shim::enums::GlutinCursorIcon;
use glutin_shim::error::{ContextError, CreationError};
use glutin_shim::event_loop::{GlutinEventLoop, GlutinEventLoopType};
use glutin_shim::headless_context::NativeContextInfo;
use glutin_shim::pixel_format::{glutin_pixel_format_get_color_bits, PixelFormat};
use glutin_shim::window_builder::{
    glutin_create_window_builder, glutin_window_builder_with_maximized, GlutinWindowBuilder,
};
use glutin_shim::window_id::WindowId128;
use glutin_shim::windowed_context::{
    create_windowed_context, glutin_create_windowed_context, glutin_destroy_windowed_context,
    glutin_windowed_context_get_api, glutin_windowed_context_get_id,
    glutin_windowed_context_get_inner_size,
    glutin_windowed_context_get_pixel_format, glutin_windowed_context_get_position,
    glutin_windowed_context_get_proc_address, glutin_windowed_context_is_current,
    glutin_windowed_context_make_current, glutin_windowed_context_resize,
    glutin_windowed_context_set_cursor_icon, glutin_windowed_context_set_inner_size,
    glutin_windowed_context_set_maximized, glutin_windowed_context_set_position,
    glutin_windowed_context_swap_buffers, GlutinWindowedContext, WindowedCreationInfo,
};
use glutin_shim::ContextApi;

fn negotiated_format() -> PixelFormat {
    PixelFormat {
        hardware_accelerated: true,
        color_bits: 24,
        alpha_bits: 8,
        depth_bits: 24,
        stencil_bits: 8,
        stereoscopy: false,
        double_buffer: true,
        multisampling: Some(4),
        srgb: true,
    }
}

fn creation_info() -> WindowedCreationInfo {
    WindowedCreationInfo {
        context: NativeContextInfo {
            id: 5,
            api: ContextApi::OpenGl,
            pixel_format: negotiated_format(),
        },
        window_id: WindowId128 { high: 0, low: 900 },
        width: 640,
        height: 480,
        x: 10,
        y: 20,
    }
}

fn fresh_windowed() -> GlutinWindowedContext {
    create_windowed_context(
        GlutinContextBuilder::new(),
        GlutinWindowBuilder::new(),
        Ok(creation_info()),
    )
    .expect("creation succeeds")
}

#[test]
fn creation_returns_a_not_current_handle() {
    let context = fresh_windowed();
    assert!(matches!(context, GlutinWindowedContext::NotCurrent(_)));
    assert!(!context.is_current());
    assert_eq!(context.get_api(), ContextApi::OpenGl);
    assert_eq!(context.get_pixel_format(), None);
}

#[test]
fn creation_failure_is_terminal_and_reported() {
    let failure = create_windowed_context(
        GlutinContextBuilder::new(),
        GlutinWindowBuilder::new(),
        Err(CreationError::NoAvailablePixelFormat),
    )
    .expect_err("creation fails");
    assert_eq!(failure, CreationError::NoAvailablePixelFormat);
}

#[test]
fn current_only_operations_are_refused_when_not_current() {
    let mut context = fresh_windowed();
    assert_eq!(
        context.swap_buffers(Ok(())),
        Err(ContextError::FunctionUnavailable)
    );
    assert_eq!(
        context.get_proc_address(0xAB),
        Err(ContextError::FunctionUnavailable)
    );
    assert_eq!(context.resize(800, 600), Err(ContextError::FunctionUnavailable));
    assert_eq!(context.get_pixel_format(), None);
}

#[test]
fn make_current_transfers_ownership_both_ways() {
    let context = fresh_windowed();
    let current = match context.make_current(Ok(())) {
        Ok(current) => current,
        Err(_) => panic!("bind succeeds"),
    };
    assert!(current.is_current());
    assert_eq!(current.get_pixel_format(), Some(negotiated_format()));
    assert_eq!(current.get_proc_address(0xAB), Ok(0xAB));
    assert_eq!(current.swap_buffers(Ok(())), Ok(()));
    assert_eq!(
        current.swap_buffers(Err(ContextError::ContextLost)),
        Err(ContextError::ContextLost)
    );

    let (back, error) = match fresh_windowed().make_current(Err(ContextError::ContextLost)) {
        Ok(_) => panic!("bind fails"),
        Err(pair) => pair,
    };
    assert_eq!(error, ContextError::ContextLost);
    assert!(matches!(back, GlutinWindowedContext::NotCurrent(_)));
}

#[test]
fn windowed_entry_points_cover_the_accessors() {
    let mut event_loops: ValueRegistry<GlutinEventLoop> = ValueRegistry::new();
    let mut window_builders: ValueRegistry<GlutinWindowBuilder> = ValueRegistry::new();
    let mut builders: ValueRegistry<GlutinContextBuilder> = ValueRegistry::new();
    let mut contexts: ValueRegistry<GlutinWindowedContext> = ValueRegistry::new();
    let mut formats: ValueRegistry<PixelFormat> = ValueRegistry::new();

    let elh = event_loops.create(GlutinEventLoop::new(GlutinEventLoopType::X11));
    let wbh = glutin_create_window_builder(&mut window_builders);
    glutin_window_builder_with_maximized(&mut window_builders, Some(wbh), true);
    let bh = builders.create(GlutinContextBuilder::new());

    let ch = glutin_create_windowed_context(
        &event_loops,
        &mut window_builders,
        &mut builders,
        &mut contexts,
        Some(elh),
        Some(wbh),
        Some(bh),
        Ok(creation_info()),
    )
    .expect("creation succeeds");
    assert!(!window_builders.is_live(wbh), "the window builder is consumed");
    assert!(!builders.is_live(bh), "the context builder is consumed");

    assert!(!glutin_windowed_context_is_current(&contexts, Some(ch)));
    assert_eq!(
        glutin_windowed_context_get_id(&contexts, Some(ch)),
        WindowId128 { high: 0, low: 900 }
    );
    assert_eq!(
        glutin_windowed_context_get_inner_size(&contexts, Some(ch)),
        (640, 480)
    );
    assert_eq!(glutin_windowed_context_get_position(&contexts, Some(ch)), (10, 20));

    // Not current yet: the boundary boxes the placeholder format.
    let fh = glutin_windowed_context_get_pixel_format(&contexts, &mut formats, Some(ch));
    assert_eq!(glutin_pixel_format_get_color_bits(&formats, fh), 0);

    assert_eq!(
        glutin_windowed_context_resize(&mut contexts, Some(ch), 800, 600),
        Some(ContextError::FunctionUnavailable)
    );
    assert_eq!(
        glutin_windowed_context_swap_buffers(&contexts, Some(ch), Ok(())),
        Some(ContextError::FunctionUnavailable)
    );
    assert_eq!(glutin_windowed_context_get_proc_address(&contexts, Some(ch), 0xFE), 0);

    assert_eq!(
        glutin_windowed_context_make_current(&mut contexts, Some(ch), Ok(())),
        None
    );
    assert!(glutin_windowed_context_is_current(&contexts, Some(ch)));
    assert_eq!(
        glutin_windowed_context_get_proc_address(&contexts, Some(ch), 0xFE),
        0xFE
    );
    assert_eq!(
        glutin_windowed_context_swap_buffers(&contexts, Some(ch), Ok(())),
        None
    );
    assert_eq!(
        glutin_windowed_context_resize(&mut contexts, Some(ch), 800, 600),
        None
    );

    let fh = glutin_windowed_context_get_pixel_format(&contexts, &mut formats, Some(ch));
    assert_eq!(glutin_pixel_format_get_color_bits(&formats, fh), 24);

    glutin_windowed_context_set_inner_size(&mut contexts, Some(ch), 1024, 768);
    assert_eq!(
        glutin_windowed_context_get_inner_size(&contexts, Some(ch)),
        (1024, 768)
    );
    glutin_windowed_context_set_position(&mut contexts, Some(ch), -5, 7);
    assert_eq!(glutin_windowed_context_get_position(&contexts, Some(ch)), (-5, 7));
    glutin_windowed_context_set_maximized(&mut contexts, Some(ch), false);
    glutin_windowed_context_set_cursor_icon(&mut contexts, Some(ch), GlutinCursorIcon::Hand);

    // Destruction releases the slot even when the un-bind fails.
    let error = glutin_destroy_windowed_context(
        &mut contexts,
        Some(ch),
        Err(ContextError::OsError(String::from("unbind failed"))),
    );
    assert_eq!(error, Some(ContextError::OsError(String::from("unbind failed"))));
    assert!(!contexts.is_live(ch));
}

#[test]
fn windowed_entry_points_are_null_safe() {
    let event_loops: ValueRegistry<GlutinEventLoop> = ValueRegistry::new();
    let mut window_builders: ValueRegistry<GlutinWindowBuilder> = ValueRegistry::new();
    let mut builders: ValueRegistry<GlutinContextBuilder> = ValueRegistry::new();
    let mut contexts: ValueRegistry<GlutinWindowedContext> = ValueRegistry::new();
    let mut formats: ValueRegistry<PixelFormat> = ValueRegistry::new();

    assert_eq!(
        glutin_create_windowed_context(
            &event_loops,
            &mut window_builders,
            &mut builders,
            &mut contexts,
            None,
            None,
            None,
            Ok(creation_info()),
        ),
        None
    );
    assert!(!glutin_windowed_context_is_current(&contexts, None));
    assert_eq!(glutin_windowed_context_get_api(&contexts, None), ContextApi::Unknown);
    assert_eq!(
        glutin_windowed_context_get_id(&contexts, None),
        WindowId128 { high: 0, low: 0 }
    );
    assert_eq!(glutin_windowed_context_get_inner_size(&contexts, None), (0, 0));
    assert_eq!(glutin_windowed_context_get_position(&contexts, None), (0, 0));
    assert_eq!(
        glutin_windowed_context_get_pixel_format(&contexts, &mut formats, None),
        None
    );
    assert_eq!(glutin_windowed_context_make_current(&mut contexts, None, Ok(())), None);
    assert_eq!(glutin_windowed_context_swap_buffers(&contexts, None, Ok(())), None);
    assert_eq!(glutin_windowed_context_get_proc_address(&contexts, None, 3), 0);
    assert_eq!(glutin_destroy_windowed_context(&mut contexts, None, Ok(())), None);
}
