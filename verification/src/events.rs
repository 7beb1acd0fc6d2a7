//! Translation of the native event stream into the fixed-layout event struct
//! the boundary hands to the foreign caller.
//!
//! The native loop produces tagged events; each is classified as exactly one
//! boundary event or as "not processed", in which case it must not be
//! forwarded. The translator owns the per-loop scan-code cache that restores
//! the virtual key on a key release the platform reports without one.
//!
//! Positions and wheel deltas that the platform reports as floating-point
//! values are carried by the boundary layer outside this crate; the
//! classification and every integral field are translated here.

use vstd::prelude::*;

use std::collections::HashMap;

use crate::window_id::native_id_value;
use crate::window_id::id128_of;
use crate::window_id::WindowId128;

verus! {

broadcast use vstd::std_specs::hash::group_hash_axioms;

/// Whether a key or button went down or up.
#[derive(Debug, Clone, Copy, PartialEq, Eq, Structural, Default)]
pub enum GlutinEventInputElementState {
    /// Reported for an event that carries no key or button change.
    #[default]
    Unknown,
    /// The key or button went down.
    Pressed,
    /// The key or button went up.
    Released,
}

/// The phase of a touch or scroll gesture.
#[derive(Debug, Clone, Copy, PartialEq, Eq, Structural, Default)]
pub enum GlutinEventTouchPhase {
    /// Reported for an event that carries no gesture.
    #[default]
    Unknown,
    /// The gesture started.
    Started,
    /// The gesture moved.
    Moved,
    /// The gesture ended.
    Ended,
    /// The gesture was cancelled.
    Cancelled,
}

/// How a scroll delta is measured.
#[derive(Debug, Clone, Copy, PartialEq, Eq, Structural, Default)]
pub enum GlutinEventMouseScrollDeltaType {
    /// Reported for an event that carries no scroll.
    #[default]
    Unknown,
    /// The delta counts text lines.
    LineDelta,
    /// The delta counts physical pixels.
    PixelDelta,
}

/// Which mouse button an input event names.
#[derive(Debug, Clone, Copy, PartialEq, Eq, Structural, Default)]
pub enum GlutinEventMouseButtonType {
    /// Reported for an event that carries no button.
    #[default]
    Unknown,
    /// The left button.
    Left,
    /// The right button.
    Right,
    /// The middle button.
    Middle,
    /// Another button, named by its code.
    Other,
}

/// A mouse button as the boundary reports it: its kind and its code.
#[derive(Debug, Clone, Copy, PartialEq, Eq, Structural, Default)]
pub struct GlutinEventMouseButton {
    /// The button's kind.
    pub button_type: GlutinEventMouseButtonType,
    /// The button's code: zero, one and two for left, right and middle, the
    /// platform's code otherwise.
    pub button_code: u16,
}

/// The state of the keyboard modifiers.
#[derive(Debug, Clone, Copy, PartialEq, Eq, Structural, Default)]
pub struct GlutinEventModifiersState {
    /// The shift key.
    pub shift: bool,
    /// The control key.
    pub ctrl: bool,
    /// The alt key.
    pub alt: bool,
    /// The logo key: the windows key on PC keyboards, the command key on
    /// Mac keyboards.
    pub logo: bool,
}

/// The discriminant of the fixed-layout boundary event.
#[derive(Debug, Clone, Copy, PartialEq, Eq, Structural, Default)]
pub enum GlutinEventType {
    /// Nothing recognised was translated.
    #[default]
    Unknown,
    /// The window was resized.
    WindowEventResized,
    /// The window was moved.
    WindowEventMoved,
    /// The user asked to close the window.
    WindowEventCloseRequested,
    /// The window was destroyed.
    WindowEventDestroyed,
    /// A character of text input arrived.
    WindowEventReceivedCharacter,
    /// The window gained or lost focus.
    WindowEventFocused,
    /// A key went down or up.
    WindowEventKeyboardInput,
    /// The cursor moved over the window.
    WindowEventCursorMoved,
    /// The cursor entered the window.
    WindowEventCursorEntered,
    /// The cursor left the window.
    WindowEventCursorLeft,
    /// The wheel scrolled.
    WindowEventMouseWheel,
    /// A mouse button went down or up.
    WindowEventMouseInput,
    /// A touch changed.
    WindowEventTouch,
    /// The window's scale factor changed.
    WindowEventScaleFactorChanged,
    /// A new batch of events starts.
    NewEvents,
    /// The main events of the batch were dispatched.
    MainEventsCleared,
    /// The event loop is being destroyed.
    LoopDestroyed,
    /// The application was suspended.
    Suspended,
    /// The application was resumed.
    Resumed,
    /// The window should be redrawn.
    RedrawRequested,
    /// The redraw events of the batch were dispatched.
    RedrawEventsCleared,
    /// The keyboard modifiers changed.
    ModifiersChanged,
    /// A user-defined wake event arrived.
    UserEvent,
}

/// How the event loop should proceed after a callback returns.
#[derive(Debug, Clone, Copy, PartialEq, Eq, Structural)]
pub enum GlutinControlFlow {
    /// Begin a new iteration at once, whether or not events are available.
    Poll,
    /// Suspend the thread until another event arrives.
    Wait,
    /// Stop the event loop.
    Exit,
}

/// The touch slot of the boundary event.
#[derive(Debug, Clone, Copy, PartialEq, Eq, Structural, Default)]
pub struct GlutinTouchEvent {
    /// The reporting device.
    pub device_id: i64,
    /// The phase of the touch.
    pub phase: GlutinEventTouchPhase,
    /// The unique identifier of a finger.
    pub id: u64,
}

/// The mouse wheel slot of the boundary event.
#[derive(Debug, Clone, Copy, PartialEq, Eq, Structural, Default)]
pub struct GlutinMouseWheelEvent {
    /// The reporting device.
    pub device_id: i64,
    /// The phase of the scroll gesture.
    pub phase: GlutinEventTouchPhase,
    /// How the delta is measured.
    pub delta_type: GlutinEventMouseScrollDeltaType,
}

/// The mouse button slot of the boundary event.
#[derive(Debug, Clone, Copy, PartialEq, Eq, Structural, Default)]
pub struct GlutinMouseInputEvent {
    /// The reporting device.
    pub device_id: i64,
    /// Whether the button went down or up.
    pub state: GlutinEventInputElementState,
    /// Which button changed.
    pub button: GlutinEventMouseButton,
}

/// The cursor position slot of the boundary event.
#[derive(Debug, Clone, Copy, PartialEq, Eq, Structural, Default)]
pub struct GlutinCursorMovedEvent {
    /// The reporting device.
    pub device_id: i64,
    /// Horizontal position, in physical pixels.
    pub x: i32,
    /// Vertical position, in physical pixels.
    pub y: i32,
}

/// The keyboard slot of the boundary event.
#[derive(Debug, Clone, Copy, PartialEq, Eq, Structural, Default)]
pub struct GlutinEventKeyboardInput {
    /// The reporting device.
    pub device_id: i64,
    /// The layout-independent physical key.
    pub scan_code: u32,
    /// Whether the key went down or up.
    pub state: GlutinEventInputElementState,
    /// Whether a virtual key is reported.
    pub has_virtual_keycode: bool,
    /// The layout-dependent virtual key, when reported.
    pub virtual_keycode: u32,
    /// Whether the platform synthesised the event.
    pub is_synthetic: bool,
}

/// The text input slot of the boundary event: one character as up to four
/// raw UTF-8 bytes, since the boundary has no native multi-byte character
/// type.
#[derive(Debug, Clone, Copy, PartialEq, Eq, Structural, Default)]
pub struct GlutinEventReceivedCharacter {
    /// How many of the four byte slots are filled: one to four.
    pub length: usize,
    /// The first byte.
    pub byte_1: u8,
    /// The second byte, when `length` is at least two.
    pub byte_2: u8,
    /// The third byte, when `length` is at least three.
    pub byte_3: u8,
    /// The fourth byte, when `length` is four.
    pub byte_4: u8,
}

/// The window size slot of the boundary event.
#[derive(Debug, Clone, Copy, PartialEq, Eq, Structural, Default)]
pub struct GlutinWindowResizedEvent {
    /// New inner width, in physical pixels.
    pub width: u32,
    /// New inner height, in physical pixels.
    pub height: u32,
}

/// The scale factor slot of the boundary event; the factor itself is a
/// floating-point value the boundary layer carries alongside.
#[derive(Debug, Clone, Copy, PartialEq, Eq, Structural, Default)]
pub struct GlutinWindowScaleFactorChangedEvent {
    /// New inner width, in physical pixels.
    pub width: u32,
    /// New inner height, in physical pixels.
    pub height: u32,
}

/// The window position slot of the boundary event.
#[derive(Debug, Clone, Copy, PartialEq, Eq, Structural, Default)]
pub struct GlutinWindowMovedEvent {
    /// New horizontal position, in physical pixels.
    pub x: i32,
    /// New vertical position, in physical pixels.
    pub y: i32,
}

/// The focus slot of the boundary event.
#[derive(Debug, Clone, Copy, PartialEq, Eq, Structural, Default)]
pub struct GlutinWindowFocusedEvent {
    /// Whether the window now has focus.
    pub is_focused: bool,
}

/// The fixed-layout event the boundary hands to the foreign caller: a
/// discriminant plus one slot per variant. Each dispatched event is
/// transient: filled, handed to a callback, and discarded.
#[derive(Debug, Clone, Copy, PartialEq, Eq, Structural, Default)]
pub struct GlutinEvent {
    /// The window the event belongs to, where it names one.
    pub window_id: WindowId128,
    /// Which slot is filled.
    pub event_type: GlutinEventType,
    /// The touch slot.
    pub touch: GlutinTouchEvent,
    /// The mouse wheel slot.
    pub mouse_wheel: GlutinMouseWheelEvent,
    /// The mouse button slot.
    pub mouse_input: GlutinMouseInputEvent,
    /// The cursor position slot.
    pub cursor_moved: GlutinCursorMovedEvent,
    /// The keyboard slot.
    pub keyboard_input: GlutinEventKeyboardInput,
    /// The text input slot.
    pub received_character: GlutinEventReceivedCharacter,
    /// The window size slot.
    pub window_resized: GlutinWindowResizedEvent,
    /// The scale factor slot.
    pub scale_factor: GlutinWindowScaleFactorChangedEvent,
    /// The window position slot.
    pub window_moved: GlutinWindowMovedEvent,
    /// The focus slot.
    pub window_focused: GlutinWindowFocusedEvent,
    /// The modifiers slot.
    pub modifiers: GlutinEventModifiersState,
    /// The user-defined wake value slot.
    pub user_event: u32,
}

/// Whether a native key or button went down or up.
#[derive(Debug, Clone, Copy, PartialEq, Eq, Structural)]
pub enum NativeElementState {
    /// The key or button went down.
    Pressed,
    /// The key or button went up.
    Released,
}

/// A native mouse button.
#[derive(Debug, Clone, Copy, PartialEq, Eq, Structural)]
pub enum NativeMouseButton {
    /// The left button.
    Left,
    /// The right button.
    Right,
    /// The middle button.
    Middle,
    /// Another button, named by the platform's code.
    Other(u16),
}

/// A native touch or scroll phase.
#[derive(Debug, Clone, Copy, PartialEq, Eq, Structural)]
pub enum NativeTouchPhase {
    /// The gesture started.
    Started,
    /// The gesture moved.
    Moved,
    /// The gesture ended.
    Ended,
    /// The gesture was cancelled.
    Cancelled,
}

/// How a native scroll delta is measured.
#[derive(Debug, Clone, Copy, PartialEq, Eq, Structural)]
pub enum NativeScrollDeltaType {
    /// The delta counts text lines.
    Line,
    /// The delta counts physical pixels.
    Pixel,
}

/// A native keyboard change: the physical key, its direction, and the
/// virtual key when the platform reports one.
#[derive(Debug, Clone, Copy, PartialEq, Eq, Structural)]
pub struct NativeKeyboardInput {
    /// The layout-independent physical key.
    pub scan_code: u32,
    /// Whether the key went down or up.
    pub state: NativeElementState,
    /// The layout-dependent virtual key, when the platform reports one.
    pub virtual_key: Option<u32>,
}

/// A native event addressed to one window, as the boundary layer reads it
/// from the platform.
#[derive(Debug, Clone, Copy, PartialEq, Eq, Structural)]
pub enum NativeWindowEvent {
    /// The window was resized.
    Resized {
        /// New inner width, in physical pixels.
        width: u32,
        /// New inner height, in physical pixels.
        height: u32,
    },
    /// The window's scale factor changed; the factor itself is carried by
    /// the boundary layer.
    ScaleFactorChanged {
        /// New inner width, in physical pixels.
        width: u32,
        /// New inner height, in physical pixels.
        height: u32,
    },
    /// The window gained or lost focus.
    Focused {
        /// Whether the window now has focus.
        is_focused: bool,
    },
    /// The window was moved.
    Moved {
        /// New horizontal position, in physical pixels.
        x: i32,
        /// New vertical position, in physical pixels.
        y: i32,
    },
    /// The user asked to close the window.
    CloseRequested,
    /// The window was destroyed.
    Destroyed,
    /// A touch changed.
    Touch {
        /// The reporting device.
        device_id: i64,
        /// The phase of the touch.
        phase: NativeTouchPhase,
        /// The unique identifier of a finger.
        id: u64,
    },
    /// A mouse button went down or up.
    MouseInput {
        /// The reporting device.
        device_id: i64,
        /// Whether the button went down or up.
        state: NativeElementState,
        /// Which button changed.
        button: NativeMouseButton,
    },
    /// The cursor moved over the window.
    CursorMoved {
        /// The reporting device.
        device_id: i64,
        /// Horizontal position, in physical pixels.
        x: i32,
        /// Vertical position, in physical pixels.
        y: i32,
    },
    /// The cursor entered the window.
    CursorEntered {
        /// The reporting device.
        device_id: i64,
    },
    /// The cursor left the window.
    CursorLeft {
        /// The reporting device.
        device_id: i64,
    },
    /// The wheel scrolled.
    MouseWheel {
        /// The reporting device.
        device_id: i64,
        /// How the delta is measured.
        delta_type: NativeScrollDeltaType,
        /// The phase of the scroll gesture.
        phase: NativeTouchPhase,
    },
    /// A key went down or up.
    KeyboardInput {
        /// The reporting device.
        device_id: i64,
        /// The key change.
        input: NativeKeyboardInput,
        /// Whether the platform synthesised the event.
        is_synthetic: bool,
    },
    /// A character of text input arrived.
    ReceivedCharacter {
        /// The character.
        character: char,
    },
    /// The keyboard modifiers changed.
    ModifiersChanged {
        /// The shift key.
        shift: bool,
        /// The control key.
        ctrl: bool,
        /// The alt key.
        alt: bool,
        /// The logo key.
        logo: bool,
    },
    /// A window event the boundary does not recognise.
    Other,
}

/// A native event as the boundary layer reads it from the platform. A window
/// identity arrives as the platform's raw id bytes and is converted here.
#[derive(Debug, Clone, PartialEq, Eq)]
pub enum NativeEvent {
    /// An event addressed to one window.
    WindowEvent {
        /// The raw bytes of the window's native id, little-endian.
        window_id_bytes: Vec<u8>,
        /// The event itself.
        event: NativeWindowEvent,
    },
    /// A new batch of events starts.
    NewEvents,
    /// The main events of the batch were dispatched.
    MainEventsCleared,
    /// The redraw events of the batch were dispatched.
    RedrawEventsCleared,
    /// The event loop is being destroyed.
    LoopDestroyed,
    /// The named window should be redrawn.
    RedrawRequested {
        /// The raw bytes of the window's native id, little-endian.
        window_id_bytes: Vec<u8>,
    },
    /// The application was suspended.
    Suspended,
    /// The application was resumed.
    Resumed,
    /// A user-defined wake event arrived.
    UserEvent {
        /// The caller's wake value.
        value: u32,
    },
    /// An event of a device, not addressed to a window; not forwarded.
    DeviceEvent,
}

/// The split identity an event reports: the converted native id, or the zero
/// sentinel for an id of unrecognised width.
pub open spec fn event_window_id(bytes: Seq<u8>) -> WindowId128 {
    match native_id_value(bytes) {
        Some(v) => id128_of(v),
        None => WindowId128 { high: 0, low: 0 },
    }
}

/// Whether a native event is forwarded to the caller. Unrecognised window
/// events and device events are not.
pub open spec fn event_is_processed(event: NativeEvent) -> bool {
    match event {
        NativeEvent::WindowEvent { event, .. } => !(event is Other),
        NativeEvent::DeviceEvent => false,
        _ => true,
    }
}

/// The virtual key a keyboard event reports, given the scan-code cache: a
/// press reports the cached key for its scan code if one is cached, else the
/// platform's key; a release reports the cached key if one is cached, else
/// whatever the platform said.
pub open spec fn reported_key(cache: Map<u32, u32>, input: NativeKeyboardInput) -> Option<u32> {
    match input.state {
        NativeElementState::Pressed => match input.virtual_key {
            None => None,
            Some(code) => if cache.contains_key(input.scan_code) {
                Some(cache[input.scan_code])
            } else {
                Some(code)
            },
        },
        NativeElementState::Released => if cache.contains_key(input.scan_code) {
            Some(cache[input.scan_code])
        } else {
            input.virtual_key
        },
    }
}

/// The scan-code cache after a keyboard event: a press with a virtual key
/// caches it for its scan code, unless one is already cached; a release
/// clears the entry for its scan code.
pub open spec fn cache_after(cache: Map<u32, u32>, input: NativeKeyboardInput) -> Map<u32, u32> {
    match input.state {
        NativeElementState::Pressed => match input.virtual_key {
            None => cache,
            Some(code) => if cache.contains_key(input.scan_code) {
                cache
            } else {
                cache.insert(input.scan_code, code)
            },
        },
        NativeElementState::Released => cache.remove(input.scan_code),
    }
}

/// The scan-code cache after any native event: only keyboard events touch it.
pub open spec fn cache_after_event(cache: Map<u32, u32>, event: NativeEvent) -> Map<u32, u32> {
    match event {
        NativeEvent::WindowEvent { event: NativeWindowEvent::KeyboardInput { input, .. }, .. } =>
            cache_after(cache, input),
        _ => cache,
    }
}

/// The boundary form of a native key or button direction.
pub open spec fn element_state_of(state: NativeElementState) -> GlutinEventInputElementState {
    match state {
        NativeElementState::Pressed => GlutinEventInputElementState::Pressed,
        NativeElementState::Released => GlutinEventInputElementState::Released,
    }
}

/// The boundary form of a native gesture phase.
pub open spec fn touch_phase_of(phase: NativeTouchPhase) -> GlutinEventTouchPhase {
    match phase {
        NativeTouchPhase::Started => GlutinEventTouchPhase::Started,
        NativeTouchPhase::Moved => GlutinEventTouchPhase::Moved,
        NativeTouchPhase::Ended => GlutinEventTouchPhase::Ended,
        NativeTouchPhase::Cancelled => GlutinEventTouchPhase::Cancelled,
    }
}

/// The boundary form of a native mouse button: left, right and middle get
/// the codes zero, one and two; any other button keeps the platform's code.
pub open spec fn mouse_button_of(button: NativeMouseButton) -> GlutinEventMouseButton {
    match button {
        NativeMouseButton::Left => GlutinEventMouseButton {
            button_type: GlutinEventMouseButtonType::Left,
            button_code: 0,
        },
        NativeMouseButton::Right => GlutinEventMouseButton {
            button_type: GlutinEventMouseButtonType::Right,
            button_code: 1,
        },
        NativeMouseButton::Middle => GlutinEventMouseButton {
            button_type: GlutinEventMouseButtonType::Middle,
            button_code: 2,
        },
        NativeMouseButton::Other(code) => GlutinEventMouseButton {
            button_type: GlutinEventMouseButtonType::Other,
            button_code: code,
        },
    }
}

/// The boundary form of a native scroll delta kind.
pub open spec fn delta_type_of(delta: NativeScrollDeltaType) -> GlutinEventMouseScrollDeltaType {
    match delta {
        NativeScrollDeltaType::Line => GlutinEventMouseScrollDeltaType::LineDelta,
        NativeScrollDeltaType::Pixel => GlutinEventMouseScrollDeltaType::PixelDelta,
    }
}

/// The keyboard slot a native key change fills, given the cache: direction
/// and scan code as reported, the virtual key as the cache logic restores
/// it.
pub open spec fn keyboard_slot_of(
    cache: Map<u32, u32>,
    device_id: i64,
    input: NativeKeyboardInput,
    is_synthetic: bool,
    before: GlutinEventKeyboardInput,
) -> GlutinEventKeyboardInput {
    let key = reported_key(cache, input);
    GlutinEventKeyboardInput {
        device_id,
        scan_code: input.scan_code,
        state: element_state_of(input.state),
        has_virtual_keycode: key is Some,
        virtual_keycode: match key {
            Some(code) => code,
            None => before.virtual_keycode,
        },
        is_synthetic,
    }
}

/// The text input slot a character fills: the character's UTF-8 encoding,
/// one to four bytes, unfilled slots keeping their previous bytes.
pub open spec fn character_slot_of(
    character: char,
    before: GlutinEventReceivedCharacter,
) -> GlutinEventReceivedCharacter {
    let bytes = vstd::utf8::encode_scalar(character as u32);
    GlutinEventReceivedCharacter {
        length: bytes.len() as usize,
        byte_1: bytes[0],
        byte_2: if bytes.len() >= 2 {
            bytes[1]
        } else {
            before.byte_2
        },
        byte_3: if bytes.len() >= 3 {
            bytes[2]
        } else {
            before.byte_3
        },
        byte_4: if bytes.len() >= 4 {
            bytes[3]
        } else {
            before.byte_4
        },
    }
}

/// The full boundary event a native event translates to, given the event
/// struct as it was handed in and the scan-code cache: the discriminant, the
/// window identity where the event names one, and the slot belonging to the
/// event are set; every other slot keeps what it held.
pub open spec fn translated_event(
    before: GlutinEvent,
    cache: Map<u32, u32>,
    event: NativeEvent,
) -> GlutinEvent {
    match event {
        NativeEvent::WindowEvent { window_id_bytes, event: inner } => {
            let tagged = GlutinEvent {
                window_id: event_window_id(window_id_bytes@),
                ..before
            };
            match inner {
                NativeWindowEvent::Resized { width, height } => GlutinEvent {
                    event_type: GlutinEventType::WindowEventResized,
                    window_resized: GlutinWindowResizedEvent { width, height },
                    ..tagged
                },
                NativeWindowEvent::ScaleFactorChanged { width, height } => GlutinEvent {
                    event_type: GlutinEventType::WindowEventScaleFactorChanged,
                    scale_factor: GlutinWindowScaleFactorChangedEvent { width, height },
                    ..tagged
                },
                NativeWindowEvent::Focused { is_focused } => GlutinEvent {
                    event_type: GlutinEventType::WindowEventFocused,
                    window_focused: GlutinWindowFocusedEvent { is_focused },
                    ..tagged
                },
                NativeWindowEvent::Moved { x, y } => GlutinEvent {
                    event_type: GlutinEventType::WindowEventMoved,
                    window_moved: GlutinWindowMovedEvent { x, y },
                    ..tagged
                },
                NativeWindowEvent::CloseRequested => GlutinEvent {
                    event_type: GlutinEventType::WindowEventCloseRequested,
                    ..tagged
                },
                NativeWindowEvent::Destroyed => GlutinEvent {
                    event_type: GlutinEventType::WindowEventDestroyed,
                    ..tagged
                },
                NativeWindowEvent::Touch { device_id, phase, id } => GlutinEvent {
                    event_type: GlutinEventType::WindowEventTouch,
                    touch: GlutinTouchEvent {
                        device_id,
                        phase: touch_phase_of(phase),
                        id,
                    },
                    ..tagged
                },
                NativeWindowEvent::MouseInput { device_id, state, button } => GlutinEvent {
                    event_type: GlutinEventType::WindowEventMouseInput,
                    mouse_input: GlutinMouseInputEvent {
                        device_id,
                        state: element_state_of(state),
                        button: mouse_button_of(button),
                    },
                    ..tagged
                },
                NativeWindowEvent::CursorMoved { device_id, x, y } => GlutinEvent {
                    event_type: GlutinEventType::WindowEventCursorMoved,
                    cursor_moved: GlutinCursorMovedEvent { device_id, x, y },
                    ..tagged
                },
                NativeWindowEvent::CursorEntered { .. } => GlutinEvent {
                    event_type: GlutinEventType::WindowEventCursorEntered,
                    ..tagged
                },
                NativeWindowEvent::CursorLeft { .. } => GlutinEvent {
                    event_type: GlutinEventType::WindowEventCursorLeft,
                    ..tagged
                },
                NativeWindowEvent::MouseWheel { device_id, delta_type, phase } => GlutinEvent {
                    event_type: GlutinEventType::WindowEventMouseWheel,
                    mouse_wheel: GlutinMouseWheelEvent {
                        device_id,
                        phase: touch_phase_of(phase),
                        delta_type: delta_type_of(delta_type),
                    },
                    ..tagged
                },
                NativeWindowEvent::KeyboardInput { device_id, input, is_synthetic } => GlutinEvent {
                    event_type: GlutinEventType::WindowEventKeyboardInput,
                    keyboard_input: keyboard_slot_of(
                        cache,
                        device_id,
                        input,
                        is_synthetic,
                        before.keyboard_input,
                    ),
                    ..tagged
                },
                NativeWindowEvent::ReceivedCharacter { character } => GlutinEvent {
                    event_type: GlutinEventType::WindowEventReceivedCharacter,
                    received_character: character_slot_of(character, before.received_character),
                    ..tagged
                },
                NativeWindowEvent::ModifiersChanged { shift, ctrl, alt, logo } => GlutinEvent {
                    event_type: GlutinEventType::ModifiersChanged,
                    modifiers: GlutinEventModifiersState { shift, ctrl, alt, logo },
                    ..tagged
                },
                NativeWindowEvent::Other => GlutinEvent {
                    event_type: GlutinEventType::Unknown,
                    ..tagged
                },
            }
        },
        NativeEvent::NewEvents => GlutinEvent { event_type: GlutinEventType::NewEvents, ..before },
        NativeEvent::MainEventsCleared => GlutinEvent {
            event_type: GlutinEventType::MainEventsCleared,
            ..before
        },
        NativeEvent::RedrawEventsCleared => GlutinEvent {
            event_type: GlutinEventType::RedrawEventsCleared,
            ..before
        },
        NativeEvent::LoopDestroyed => GlutinEvent {
            event_type: GlutinEventType::LoopDestroyed,
            ..before
        },
        NativeEvent::RedrawRequested { window_id_bytes } => GlutinEvent {
            event_type: GlutinEventType::RedrawRequested,
            window_id: event_window_id(window_id_bytes@),
            ..before
        },
        NativeEvent::Suspended => GlutinEvent { event_type: GlutinEventType::Suspended, ..before },
        NativeEvent::Resumed => GlutinEvent { event_type: GlutinEventType::Resumed, ..before },
        NativeEvent::UserEvent { value } => GlutinEvent {
            event_type: GlutinEventType::UserEvent,
            user_event: value,
            ..before
        },
        NativeEvent::DeviceEvent => GlutinEvent {
            event_type: GlutinEventType::Unknown,
            ..before
        },
    }
}

/// Translates the native event stream, owning the scan-code cache of one
/// event loop. Each loop gets its own processor, so several loops in one
/// process never cross-contaminate.
pub struct EventProcessor {
    /// For each pressed scan code, the virtual key its press reported.
    pub key_buffer: HashMap<u32, u32>,
}

impl EventProcessor {
    /// A fresh processor with an empty cache.
    pub fn new() -> (r: EventProcessor)
        ensures
            r.key_buffer@ == Map::<u32, u32>::empty(),
    {
        EventProcessor { key_buffer: HashMap::new() }
    }

    /// Translates one native event into the boundary struct. Returns whether
    /// the event was recognised: an unrecognised event must not be forwarded,
    /// and then only the discriminant — reset to `Unknown` — and, for window
    /// events, the window identity have changed.
    pub fn process(&mut self, event: NativeEvent, c_event: &mut GlutinEvent) -> (r: bool)
        ensures
            r == event_is_processed(event),
            *final(c_event) == translated_event(
                *old(c_event),
                old(self).key_buffer@,
                event,
            ),
            final(self).key_buffer@ == cache_after_event(old(self).key_buffer@, event),
    {
        c_event.event_type = GlutinEventType::Unknown;
        match event {
            NativeEvent::WindowEvent { window_id_bytes, event: inner } => {
                let (id, _recognised) = crate::window_id::glutin_convert_window_id_or_zero(
                    &window_id_bytes,
                );
                c_event.window_id = id;
                match inner {
                    NativeWindowEvent::Resized { width, height } => {
                        c_event.event_type = GlutinEventType::WindowEventResized;
                        c_event.window_resized = GlutinWindowResizedEvent { width, height };
                        true
                    },
                    NativeWindowEvent::ScaleFactorChanged { width, height } => {
                        c_event.event_type = GlutinEventType::WindowEventScaleFactorChanged;
                        c_event.scale_factor = GlutinWindowScaleFactorChangedEvent {
                            width,
                            height,
                        };
                        true
                    },
                    NativeWindowEvent::Focused { is_focused } => {
                        c_event.event_type = GlutinEventType::WindowEventFocused;
                        c_event.window_focused = GlutinWindowFocusedEvent { is_focused };
                        true
                    },
                    NativeWindowEvent::Moved { x, y } => {
                        c_event.event_type = GlutinEventType::WindowEventMoved;
                        c_event.window_moved = GlutinWindowMovedEvent { x, y };
                        true
                    },
                    NativeWindowEvent::CloseRequested => {
                        c_event.event_type = GlutinEventType::WindowEventCloseRequested;
                        true
                    },
                    NativeWindowEvent::Destroyed => {
                        c_event.event_type = GlutinEventType::WindowEventDestroyed;
                        true
                    },
                    NativeWindowEvent::Touch { device_id, phase, id } => {
                        c_event.event_type = GlutinEventType::WindowEventTouch;
                        c_event.touch = GlutinTouchEvent {
                            device_id,
                            phase: translate_touch_phase(phase),
                            id,
                        };
                        true
                    },
                    NativeWindowEvent::MouseInput { device_id, state, button } => {
                        c_event.event_type = GlutinEventType::WindowEventMouseInput;
                        c_event.mouse_input = GlutinMouseInputEvent {
                            device_id,
                            state: translate_element_state(state),
                            button: translate_mouse_button(button),
                        };
                        true
                    },
                    NativeWindowEvent::CursorMoved { device_id, x, y } => {
                        c_event.event_type = GlutinEventType::WindowEventCursorMoved;
                        c_event.cursor_moved = GlutinCursorMovedEvent { device_id, x, y };
                        true
                    },
                    NativeWindowEvent::CursorEntered { .. } => {
                        c_event.event_type = GlutinEventType::WindowEventCursorEntered;
                        true
                    },
                    NativeWindowEvent::CursorLeft { .. } => {
                        c_event.event_type = GlutinEventType::WindowEventCursorLeft;
                        true
                    },
                    NativeWindowEvent::MouseWheel { device_id, delta_type, phase } => {
                        c_event.event_type = GlutinEventType::WindowEventMouseWheel;
                        c_event.mouse_wheel = GlutinMouseWheelEvent {
                            device_id,
                            phase: translate_touch_phase(phase),
                            delta_type: translate_delta_type(delta_type),
                        };
                        true
                    },
                    NativeWindowEvent::KeyboardInput { device_id, input, is_synthetic } => {
                        self.process_keyboard_input(c_event, device_id, input, is_synthetic);
                        true
                    },
                    NativeWindowEvent::ReceivedCharacter { character } => {
                        process_received_character(c_event, character);
                        true
                    },
                    NativeWindowEvent::ModifiersChanged { shift, ctrl, alt, logo } => {
                        c_event.event_type = GlutinEventType::ModifiersChanged;
                        c_event.modifiers = GlutinEventModifiersState { shift, ctrl, alt, logo };
                        true
                    },
                    NativeWindowEvent::Other => false,
                }
            },
            NativeEvent::NewEvents => {
                c_event.event_type = GlutinEventType::NewEvents;
                true
            },
            NativeEvent::MainEventsCleared => {
                c_event.event_type = GlutinEventType::MainEventsCleared;
                true
            },
            NativeEvent::RedrawEventsCleared => {
                c_event.event_type = GlutinEventType::RedrawEventsCleared;
                true
            },
            NativeEvent::LoopDestroyed => {
                c_event.event_type = GlutinEventType::LoopDestroyed;
                true
            },
            NativeEvent::RedrawRequested { window_id_bytes } => {
                c_event.event_type = GlutinEventType::RedrawRequested;
                let (id, _recognised) = crate::window_id::glutin_convert_window_id_or_zero(
                    &window_id_bytes,
                );
                c_event.window_id = id;
                true
            },
            NativeEvent::Suspended => {
                c_event.event_type = GlutinEventType::Suspended;
                true
            },
            NativeEvent::Resumed => {
                c_event.event_type = GlutinEventType::Resumed;
                true
            },
            NativeEvent::UserEvent { value } => {
                c_event.event_type = GlutinEventType::UserEvent;
                c_event.user_event = value;
                true
            },
            NativeEvent::DeviceEvent => false,
        }
    }

    /// Fills the keyboard slot, restoring the virtual key through the
    /// scan-code cache: a press remembers which virtual key it reported for
    /// its scan code, and the matching release reports the same virtual key
    /// even if the platform omits it, clearing the entry.
    fn process_keyboard_input(
        &mut self,
        c_event: &mut GlutinEvent,
        device_id: i64,
        input: NativeKeyboardInput,
        is_synthetic: bool,
    )
        ensures
            *final(c_event) == (GlutinEvent {
                event_type: GlutinEventType::WindowEventKeyboardInput,
                keyboard_input: keyboard_slot_of(
                    old(self).key_buffer@,
                    device_id,
                    input,
                    is_synthetic,
                    old(c_event).keyboard_input,
                ),
                ..*old(c_event)
            }),
            final(self).key_buffer@ == cache_after(old(self).key_buffer@, input),
    {
        c_event.event_type = GlutinEventType::WindowEventKeyboardInput;
        let key_code: Option<u32> = match input.state {
            NativeElementState::Pressed => match input.virtual_key {
                None => None,
                Some(code) => match self.key_buffer.get(&input.scan_code) {
                    None => {
                        self.key_buffer.insert(input.scan_code, code);
                        Some(code)
                    },
                    Some(cached) => Some(*cached),
                },
            },
            NativeElementState::Released => {
                let removed = self.key_buffer.remove(&input.scan_code);
                match removed {
                    None => input.virtual_key,
                    Some(cached) => Some(cached),
                }
            },
        };
        let slot = GlutinEventKeyboardInput {
            device_id,
            scan_code: input.scan_code,
            state: translate_element_state(input.state),
            has_virtual_keycode: key_code.is_some(),
            virtual_keycode: match key_code {
                Some(code) => code,
                None => c_event.keyboard_input.virtual_keycode,
            },
            is_synthetic,
        };
        c_event.keyboard_input = slot;
    }
}

/// The boundary form of a native key or button direction; see
/// `element_state_of`.
pub fn translate_element_state(state: NativeElementState) -> (r: GlutinEventInputElementState)
    ensures
        r == element_state_of(state),
{
    match state {
        NativeElementState::Pressed => GlutinEventInputElementState::Pressed,
        NativeElementState::Released => GlutinEventInputElementState::Released,
    }
}

/// The boundary form of a native gesture phase; see `touch_phase_of`.
pub fn translate_touch_phase(phase: NativeTouchPhase) -> (r: GlutinEventTouchPhase)
    ensures
        r == touch_phase_of(phase),
{
    match phase {
        NativeTouchPhase::Started => GlutinEventTouchPhase::Started,
        NativeTouchPhase::Moved => GlutinEventTouchPhase::Moved,
        NativeTouchPhase::Ended => GlutinEventTouchPhase::Ended,
        NativeTouchPhase::Cancelled => GlutinEventTouchPhase::Cancelled,
    }
}

/// The boundary form of a native mouse button; see `mouse_button_of`.
pub fn translate_mouse_button(button: NativeMouseButton) -> (r: GlutinEventMouseButton)
    ensures
        r == mouse_button_of(button),
{
    match button {
        NativeMouseButton::Left => GlutinEventMouseButton {
            button_type: GlutinEventMouseButtonType::Left,
            button_code: 0,
        },
        NativeMouseButton::Right => GlutinEventMouseButton {
            button_type: GlutinEventMouseButtonType::Right,
            button_code: 1,
        },
        NativeMouseButton::Middle => GlutinEventMouseButton {
            button_type: GlutinEventMouseButtonType::Middle,
            button_code: 2,
        },
        NativeMouseButton::Other(code) => GlutinEventMouseButton {
            button_type: GlutinEventMouseButtonType::Other,
            button_code: code,
        },
    }
}

/// The boundary form of a native scroll delta kind; see `delta_type_of`.
pub fn translate_delta_type(delta: NativeScrollDeltaType) -> (r: GlutinEventMouseScrollDeltaType)
    ensures
        r == delta_type_of(delta),
{
    match delta {
        NativeScrollDeltaType::Line => GlutinEventMouseScrollDeltaType::LineDelta,
        NativeScrollDeltaType::Pixel => GlutinEventMouseScrollDeltaType::PixelDelta,
    }
}

/// The UTF-8 encoding of one character: how many of the four byte slots are
/// filled, and the bytes, exactly as `vstd::utf8::encode_scalar` describes
/// them.
pub fn encode_character(character: char) -> (r: (usize, u8, u8, u8, u8))
    ensures
        ({
            let bytes = vstd::utf8::encode_scalar(character as u32);
            &&& r.0 == bytes.len()
            &&& 1 <= r.0 <= 4
            &&& r.1 == bytes[0]
            &&& r.0 >= 2 ==> r.2 == bytes[1]
            &&& r.0 >= 3 ==> r.3 == bytes[2]
            &&& r.0 >= 4 ==> r.4 == bytes[3]
        }),
{
    let u = character as u32;
    proof {
        assert(vstd::utf8::is_scalar(u));
    }
    if u < 0x80 {
        (1, (u & 0x7F) as u8, 0, 0, 0)
    } else if u < 0x800 {
        (2, 0xC0 | ((u >> 6) & 0x1F) as u8, 0x80 | (u & 0x3F) as u8, 0, 0)
    } else if u < 0x10000 {
        (
            3,
            0xE0 | ((u >> 12) & 0x0F) as u8,
            0x80 | ((u >> 6) & 0x3F) as u8,
            0x80 | (u & 0x3F) as u8,
            0,
        )
    } else {
        (
            4,
            0xF0 | ((u >> 18) & 0x7) as u8,
            0x80 | ((u >> 12) & 0x3F) as u8,
            0x80 | ((u >> 6) & 0x3F) as u8,
            0x80 | (u & 0x3F) as u8,
        )
    }
}

/// Fills the text input slot with the character's UTF-8 bytes.
fn process_received_character(c_event: &mut GlutinEvent, character: char)
    ensures
        *final(c_event) == (GlutinEvent {
            event_type: GlutinEventType::WindowEventReceivedCharacter,
            received_character: character_slot_of(character, old(c_event).received_character),
            ..*old(c_event)
        }),
{
    c_event.event_type = GlutinEventType::WindowEventReceivedCharacter;
    let (length, byte_1, byte_2, byte_3, byte_4) = encode_character(character);
    let previous = c_event.received_character;
    c_event.received_character = GlutinEventReceivedCharacter {
        length,
        byte_1,
        byte_2: if length >= 2 {
            byte_2
        } else {
            previous.byte_2
        },
        byte_3: if length >= 3 {
            byte_3
        } else {
            previous.byte_3
        },
        byte_4: if length >= 4 {
            byte_4
        } else {
            previous.byte_4
        },
    };
}


/// Whether a translated event is placed on the queue of the polling
/// delivery mode. The batch bookkeeping pseudo-events — batch started, main
/// events dispatched, redraw events dispatched — only pace the loop and are
/// not enqueued; everything else recognised is.
pub fn event_should_enqueue(event_type: GlutinEventType) -> (r: bool)
    ensures
        r == (event_type != GlutinEventType::MainEventsCleared && event_type
            != GlutinEventType::RedrawEventsCleared && event_type != GlutinEventType::NewEvents),
{
    match event_type {
        GlutinEventType::MainEventsCleared => false,
        GlutinEventType::RedrawEventsCleared => false,
        GlutinEventType::NewEvents => false,
        _ => true,
    }
}

/// Scan-code key-repeat cache law: pressing scan code `s` with virtual key
/// `k` while nothing is cached for `s` reports `k` and caches it; the
/// matching release, even when the platform reports no virtual key, reports
/// the same `k` from the cache, and afterwards the cache holds no entry for
/// `s`.
pub proof fn lemma_key_repeat_cache(cache: Map<u32, u32>, s: u32, k: u32)
    requires
        !cache.contains_key(s),
    ensures
        ({
            let press = NativeKeyboardInput {
                scan_code: s,
                state: NativeElementState::Pressed,
                virtual_key: Some(k),
            };
            let release = NativeKeyboardInput {
                scan_code: s,
                state: NativeElementState::Released,
                virtual_key: None,
            };
            let cache_after_press = cache_after(cache, press);
            &&& reported_key(cache, press) == Some(k)
            &&& cache_after_press == cache.insert(s, k)
            &&& reported_key(cache_after_press, release) == Some(k)
            &&& !cache_after(cache_after_press, release).contains_key(s)
        }),
{
}

} // verus!
