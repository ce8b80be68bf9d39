//! The portable events and the translation of what the native engine
//! reports into them.

use vstd::prelude::*;
use crate::types::{
    ElementState, F64Bits, Key, KeyCode, ModifiersState, MouseButton, MouseScrollDelta,
    PhysicalPositionF64, PhysicalPositionI32, Theme,
};

verus! {

/// An event that the application injected into the loop.
#[derive(Debug, Clone, PartialEq, Eq)]
pub enum TaoUserEvent {
    Timer,
    Message { value: String },
}

/// Why a new cycle of events started.
#[derive(Debug, Clone, PartialEq, Eq)]
pub enum TaoStartCause {
    Init,
    Poll,
    WaitCancelled,
    ResumeTimeReached,
    Other { value: String },
}

/// A key event that came from a device, not from a window.
#[derive(Debug, Clone, PartialEq, Eq)]
pub struct RawKeyEvent {
    pub physical_key: KeyCode,
    pub state: ElementState,
}

/// A key event that a window received.
#[derive(Debug, Clone, PartialEq, Eq)]
pub struct KeyEvent {
    pub physical_key: KeyCode,
    pub logical_key: Key,
    pub state: ElementState,
}

/// What happened to a window.
#[derive(Debug, Clone, PartialEq, Eq)]
#[allow(inconsistent_fields)]
pub enum TaoWindowEvent {
    CloseRequested,
    Destroyed,
    DroppedFile { path: String },
    KeyboardInput { event: KeyEvent },
    ModifiersChanged { modifiers: ModifiersState },
    CursorMoved { position: PhysicalPositionF64 },
    CursorEntered,
    MouseInput { state: ElementState, button: MouseButton },
    Moved { position: PhysicalPositionI32 },
    ThemeChanged { theme: Theme },
    Other { value: String },
}

/// What a device reported, whichever window has the focus.
#[derive(Debug, Clone, PartialEq, Eq)]
#[allow(inconsistent_fields)]
pub enum TaoDeviceEvent {
    MouseMotion { delta_x: F64Bits, delta_y: F64Bits },
    MouseWheel { delta: MouseScrollDelta },
    Button { button: u32, state: ElementState },
    Key { event: RawKeyEvent },
    Other { value: String },
}

/// An event as the handler sees it. Windows are named by their stable ids.
#[derive(Debug, Clone, PartialEq, Eq)]
#[allow(inconsistent_fields)]
pub enum TaoEvent {
    NewEvents { cause: TaoStartCause },
    WindowEvent { window_id: u64, event: TaoWindowEvent },
    DeviceEvent { event: TaoDeviceEvent },
    UserEvent { event: TaoUserEvent },
    MainEventsCleared,
    RedrawRequested { window_id: u64 },
    RedrawEventsCleared,
    Reopen { has_visible_windows: bool },
    LoopDestroyed,
    Other { value: String },
}

/// An event as the native engine reports it. Windows are named by the
/// engine's own ids; what the library has no variant for comes with the
/// engine's rendering of it.
#[derive(Debug, Clone, PartialEq, Eq)]
#[allow(inconsistent_fields)]
pub enum NativeEvent {
    NewEvents { cause: TaoStartCause },
    WindowEvent { window: u64, event: TaoWindowEvent },
    DeviceEvent { event: TaoDeviceEvent },
    UserEvent { event: TaoUserEvent },
    MainEventsCleared,
    RedrawRequested { window: u64 },
    RedrawEventsCleared,
    Reopen { has_visible_windows: bool },
    LoopDestroyed,
    Unmodeled { rendering: String },
}

impl TaoEvent {
    /// The stable id of the window that the event is about, if it is about one.
    pub open spec fn window_id(self) -> Option<u64> {
        match self {
            TaoEvent::WindowEvent { window_id, .. } => Some(window_id),
            TaoEvent::RedrawRequested { window_id } => Some(window_id),
            _ => None,
        }
    }
}

impl NativeEvent {
    /// The native id of the window that the event is about, if it is about one.
    pub open spec fn window(self) -> Option<u64> {
        match self {
            NativeEvent::WindowEvent { window, .. } => Some(window),
            NativeEvent::RedrawRequested { window } => Some(window),
            _ => None,
        }
    }

    /// The portable event for this native event, where `stable_id` is the
    /// stable id of its window. An event without a window ignores `stable_id`.
    pub open spec fn translated(self, stable_id: u64) -> TaoEvent {
        match self {
            NativeEvent::NewEvents { cause } => TaoEvent::NewEvents { cause },
            NativeEvent::WindowEvent { window, event } => TaoEvent::WindowEvent {
                window_id: stable_id,
                event,
            },
            NativeEvent::DeviceEvent { event } => TaoEvent::DeviceEvent { event },
            NativeEvent::UserEvent { event } => TaoEvent::UserEvent { event },
            NativeEvent::MainEventsCleared => TaoEvent::MainEventsCleared,
            NativeEvent::RedrawRequested { window } => TaoEvent::RedrawRequested {
                window_id: stable_id,
            },
            NativeEvent::RedrawEventsCleared => TaoEvent::RedrawEventsCleared,
            NativeEvent::Reopen { has_visible_windows } => TaoEvent::Reopen { has_visible_windows },
            NativeEvent::LoopDestroyed => TaoEvent::LoopDestroyed,
            NativeEvent::Unmodeled { rendering } => TaoEvent::Other { value: rendering },
        }
    }

    /// The native id of the window that the event is about, if it is about one.
    pub fn window_of(&self) -> (window: Option<u64>)
        ensures
            window == self.window(),
    {
        match self {
            NativeEvent::WindowEvent { window, .. } => Some(*window),
            NativeEvent::RedrawRequested { window } => Some(*window),
            _ => None,
        }
    }

    /// Whether the event comes from a device and not from a window or the loop.
    pub fn is_device_event(&self) -> (device: bool)
        ensures
            device == (self is DeviceEvent),
    {
        match self {
            NativeEvent::DeviceEvent { .. } => true,
            _ => false,
        }
    }

    /// Whether this is the last event a loop delivers.
    pub fn is_loop_destroyed(&self) -> (last: bool)
        ensures
            last == (self is LoopDestroyed),
    {
        match self {
            NativeEvent::LoopDestroyed => true,
            _ => false,
        }
    }

    /// Law of translation: the stable id matters only to an event that is
    /// about a window, and there it is the only thing that it changes.
    pub proof fn law_translation_shape(self, a: u64, b: u64)
        ensures
            self.window() is None ==> self.translated(a) == self.translated(b),
            self.translated(a).window_id() is Some <==> self.window() is Some,
            self.window() is Some ==> self.translated(a).window_id() == Some(a),
            self.window() is Some && self.translated(a) == self.translated(b) ==> a == b,
    {
    }
}

/// Translates a native event. Every native event has exactly one portable
/// event; the id of its window, where it has one, is replaced by what
/// `map_window_id` returns for it, and nothing else is changed.
pub fn convert_event<F>(event: NativeEvent, map_window_id: F) -> (converted: TaoEvent) where
    F: Fn(u64) -> u64,

    requires
        event.window() matches Some(window) ==> call_requires(map_window_id, (window,)),
    ensures
        match event.window() {
            Some(window) => converted.window_id() matches Some(id) && call_ensures(
                map_window_id,
                (window,),
                id,
            ) && converted == event.translated(id),
            None => converted == event.translated(0),
        },
{
    match event {
        NativeEvent::NewEvents { cause } => TaoEvent::NewEvents { cause },
        NativeEvent::WindowEvent { window, event } => TaoEvent::WindowEvent {
            window_id: map_window_id(window),
            event,
        },
        NativeEvent::DeviceEvent { event } => TaoEvent::DeviceEvent { event },
        NativeEvent::UserEvent { event } => TaoEvent::UserEvent { event },
        NativeEvent::MainEventsCleared => TaoEvent::MainEventsCleared,
        NativeEvent::RedrawRequested { window } => TaoEvent::RedrawRequested {
            window_id: map_window_id(window),
        },
        NativeEvent::RedrawEventsCleared => TaoEvent::RedrawEventsCleared,
        NativeEvent::Reopen { has_visible_windows } => TaoEvent::Reopen { has_visible_windows },
        NativeEvent::LoopDestroyed => TaoEvent::LoopDestroyed,
        NativeEvent::Unmodeled { rendering } => TaoEvent::Other { value: rendering },
    }
}

} // verus!
