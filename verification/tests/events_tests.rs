//! Event translation: window identities, the scan-code cache, text input and
//! classification.

use glutin_shim::events::{
    event_should_enqueue, EventProcessor, GlutinEvent, GlutinEventInputElementState, GlutinEventMouseButtonType,
    GlutinEventMouseScrollDeltaType, GlutinEventTouchPhase, GlutinEventType, NativeElementState,
    NativeEvent, NativeKeyboardInput, NativeMouseButton, NativeScrollDeltaType, NativeTouchPhase,
    NativeWindowEvent,
};
use glutin_shim::window_id::{
    glutin_convert_window_id, glutin_convert_window_id_or_zero, join_window_id, split_window_id,
    WindowId128,
};

fn window_event(bytes: Vec<u8>, event: NativeWindowEvent) -> NativeEvent {
    NativeEvent::WindowEvent { window_id_bytes: bytes, event }
}

#[test]
fn window_id_round_trips_for_width_4() {
    let id: u32 = 0xDEAD_BEEF;
    let converted = glutin_convert_window_id(&id.to_le_bytes().to_vec()).expect("width 4");
    assert_eq!(join_window_id(converted), id as u128);
}

#[test]
fn window_id_round_trips_for_width_8() {
    let id: u64 = 0x0123_4567_89AB_CDEF;
    let converted = glutin_convert_window_id(&id.to_le_bytes().to_vec()).expect("width 8");
    assert_eq!(converted, WindowId128 { high: 0, low: id });
    assert_eq!(join_window_id(converted), id as u128);
}

#[test]
fn window_id_round_trips_for_width_16() {
    let id: u128 = 0x1122_3344_5566_7788_99AA_BBCC_DDEE_FF00;
    let converted = glutin_convert_window_id(&id.to_le_bytes().to_vec()).expect("width 16");
    assert_eq!(join_window_id(converted), id);
    assert_eq!(converted, split_window_id(id));
    assert_eq!(converted.high, (id >> 64) as u64);
    assert_eq!(converted.low, id as u64);
}

#[test]
fn unrecognised_width_yields_the_zero_sentinel_with_a_diagnostic_flag() {
    let odd = vec![1u8, 2, 3];
    assert_eq!(glutin_convert_window_id(&odd), None);
    let (sentinel, recognised) = glutin_convert_window_id_or_zero(&odd);
    assert_eq!(sentinel, WindowId128 { high: 0, low: 0 });
    assert!(!recognised);
}

#[test]
fn key_repeat_cache_restores_the_virtual_key_on_release() {
    let mut processor = EventProcessor::new();
    let mut event = GlutinEvent::default();
    let scan_code: u32 = 57;
    let virtual_key: u32 = 4100;

    let press = window_event(
        5u64.to_le_bytes().to_vec(),
        NativeWindowEvent::KeyboardInput {
            device_id: 1,
            input: NativeKeyboardInput {
                scan_code,
                state: NativeElementState::Pressed,
                virtual_key: Some(virtual_key),
            },
            is_synthetic: false,
        },
    );
    assert!(processor.process(press, &mut event));
    assert_eq!(event.event_type, GlutinEventType::WindowEventKeyboardInput);
    assert!(event.keyboard_input.has_virtual_keycode);
    assert_eq!(event.keyboard_input.virtual_keycode, virtual_key);
    assert_eq!(event.keyboard_input.state, GlutinEventInputElementState::Pressed);

    // The platform omits the virtual key on release; the cache restores it.
    let release = window_event(
        5u64.to_le_bytes().to_vec(),
        NativeWindowEvent::KeyboardInput {
            device_id: 1,
            input: NativeKeyboardInput {
                scan_code,
                state: NativeElementState::Released,
                virtual_key: None,
            },
            is_synthetic: false,
        },
    );
    assert!(processor.process(release, &mut event));
    assert!(event.keyboard_input.has_virtual_keycode);
    assert_eq!(event.keyboard_input.virtual_keycode, virtual_key);
    assert_eq!(event.keyboard_input.state, GlutinEventInputElementState::Released);
    assert!(!processor.key_buffer.contains_key(&scan_code), "the entry is cleared");

    // A second bare release finds nothing cached.
    let second_release = window_event(
        5u64.to_le_bytes().to_vec(),
        NativeWindowEvent::KeyboardInput {
            device_id: 1,
            input: NativeKeyboardInput {
                scan_code,
                state: NativeElementState::Released,
                virtual_key: None,
            },
            is_synthetic: false,
        },
    );
    assert!(processor.process(second_release, &mut event));
    assert!(!event.keyboard_input.has_virtual_keycode);
}

#[test]
fn repeated_presses_report_the_first_cached_key() {
    let mut processor = EventProcessor::new();
    let mut event = GlutinEvent::default();
    for (reported, expected) in [(7u32, 7u32), (9, 7)] {
        let press = window_event(
            5u64.to_le_bytes().to_vec(),
            NativeWindowEvent::KeyboardInput {
                device_id: 1,
                input: NativeKeyboardInput {
                    scan_code: 3,
                    state: NativeElementState::Pressed,
                    virtual_key: Some(reported),
                },
                is_synthetic: false,
            },
        );
        assert!(processor.process(press, &mut event));
        assert_eq!(event.keyboard_input.virtual_keycode, expected);
    }
}

#[test]
fn received_character_is_delivered_as_utf8_bytes() {
    let mut processor = EventProcessor::new();
    let mut event = GlutinEvent::default();

    let ascii = window_event(
        1u32.to_le_bytes().to_vec(),
        NativeWindowEvent::ReceivedCharacter { character: 'A' },
    );
    assert!(processor.process(ascii, &mut event));
    assert_eq!(event.event_type, GlutinEventType::WindowEventReceivedCharacter);
    assert_eq!(event.received_character.length, 1);
    assert_eq!(event.received_character.byte_1, b'A');

    let two_bytes = window_event(
        1u32.to_le_bytes().to_vec(),
        NativeWindowEvent::ReceivedCharacter { character: 'é' },
    );
    assert!(processor.process(two_bytes, &mut event));
    assert_eq!(event.received_character.length, 2);
    assert_eq!(
        [event.received_character.byte_1, event.received_character.byte_2],
        [0xC3, 0xA9]
    );

    let four_bytes = window_event(
        1u32.to_le_bytes().to_vec(),
        NativeWindowEvent::ReceivedCharacter { character: '🦀' },
    );
    assert!(processor.process(four_bytes, &mut event));
    assert_eq!(event.received_character.length, 4);
    assert_eq!(
        [
            event.received_character.byte_1,
            event.received_character.byte_2,
            event.received_character.byte_3,
            event.received_character.byte_4,
        ],
        [0xF0, 0x9F, 0xA6, 0x80]
    );
}

#[test]
fn window_events_carry_their_identity_and_payload() {
    let mut processor = EventProcessor::new();
    let mut event = GlutinEvent::default();
    let resized = window_event(
        0xAABBu64.to_le_bytes().to_vec(),
        NativeWindowEvent::Resized { width: 320, height: 200 },
    );
    assert!(processor.process(resized, &mut event));
    assert_eq!(event.event_type, GlutinEventType::WindowEventResized);
    assert_eq!(event.window_id, WindowId128 { high: 0, low: 0xAABB });
    assert_eq!(event.window_resized.width, 320);
    assert_eq!(event.window_resized.height, 200);

    let moved = window_event(
        0xAABBu64.to_le_bytes().to_vec(),
        NativeWindowEvent::Moved { x: -1, y: 44 },
    );
    assert!(processor.process(moved, &mut event));
    assert_eq!(event.event_type, GlutinEventType::WindowEventMoved);
    assert_eq!((event.window_moved.x, event.window_moved.y), (-1, 44));

    let wheel = window_event(
        0xAABBu64.to_le_bytes().to_vec(),
        NativeWindowEvent::MouseWheel {
            device_id: 2,
            delta_type: NativeScrollDeltaType::Line,
            phase: NativeTouchPhase::Moved,
        },
    );
    assert!(processor.process(wheel, &mut event));
    assert_eq!(event.event_type, GlutinEventType::WindowEventMouseWheel);
    assert_eq!(event.mouse_wheel.delta_type, GlutinEventMouseScrollDeltaType::LineDelta);
    assert_eq!(event.mouse_wheel.phase, GlutinEventTouchPhase::Moved);

    let button = window_event(
        0xAABBu64.to_le_bytes().to_vec(),
        NativeWindowEvent::MouseInput {
            device_id: 2,
            state: NativeElementState::Pressed,
            button: NativeMouseButton::Other(9),
        },
    );
    assert!(processor.process(button, &mut event));
    assert_eq!(event.mouse_input.button.button_type, GlutinEventMouseButtonType::Other);
    assert_eq!(event.mouse_input.button.button_code, 9);

    let modifiers = window_event(
        0xAABBu64.to_le_bytes().to_vec(),
        NativeWindowEvent::ModifiersChanged { shift: true, ctrl: false, alt: true, logo: false },
    );
    assert!(processor.process(modifiers, &mut event));
    assert_eq!(event.event_type, GlutinEventType::ModifiersChanged);
    assert!(event.modifiers.shift && event.modifiers.alt);
    assert!(!event.modifiers.ctrl && !event.modifiers.logo);
}

#[test]
fn lifecycle_events_are_forwarded() {
    let mut processor = EventProcessor::new();
    let mut event = GlutinEvent::default();
    let cases = [
        (NativeEvent::NewEvents, GlutinEventType::NewEvents),
        (NativeEvent::MainEventsCleared, GlutinEventType::MainEventsCleared),
        (NativeEvent::RedrawEventsCleared, GlutinEventType::RedrawEventsCleared),
        (NativeEvent::LoopDestroyed, GlutinEventType::LoopDestroyed),
        (NativeEvent::Suspended, GlutinEventType::Suspended),
        (NativeEvent::Resumed, GlutinEventType::Resumed),
    ];
    for (native, expected) in cases {
        assert!(processor.process(native, &mut event));
        assert_eq!(event.event_type, expected);
    }

    assert!(processor.process(NativeEvent::UserEvent { value: 31 }, &mut event));
    assert_eq!(event.event_type, GlutinEventType::UserEvent);
    assert_eq!(event.user_event, 31);

    let redraw = NativeEvent::RedrawRequested { window_id_bytes: 6u32.to_le_bytes().to_vec() };
    assert!(processor.process(redraw, &mut event));
    assert_eq!(event.event_type, GlutinEventType::RedrawRequested);
    assert_eq!(event.window_id, WindowId128 { high: 0, low: 6 });
}

#[test]
fn unrecognised_events_are_not_forwarded() {
    let mut processor = EventProcessor::new();
    let mut event = GlutinEvent::default();
    let unknown = window_event(7u64.to_le_bytes().to_vec(), NativeWindowEvent::Other);
    assert!(!processor.process(unknown, &mut event));
    assert_eq!(event.event_type, GlutinEventType::Unknown);
    assert!(!processor.process(NativeEvent::DeviceEvent, &mut event));
    assert_eq!(event.event_type, GlutinEventType::Unknown);
}

#[test]
fn batch_bookkeeping_events_are_not_enqueued() {
    assert!(!event_should_enqueue(GlutinEventType::NewEvents));
    assert!(!event_should_enqueue(GlutinEventType::MainEventsCleared));
    assert!(!event_should_enqueue(GlutinEventType::RedrawEventsCleared));
    assert!(event_should_enqueue(GlutinEventType::WindowEventResized));
    assert!(event_should_enqueue(GlutinEventType::RedrawRequested));
    assert!(event_should_enqueue(GlutinEventType::UserEvent));
}
