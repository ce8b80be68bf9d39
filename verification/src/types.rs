//! The plain values that cross the boundary: sizes, positions, keys,
//! buttons, themes and the directive a handler gives the loop.
//!
//! Fractional quantities are carried as IEEE 754 bit patterns. The library
//! only moves them; it never computes with them.

use vstd::prelude::*;

verus! {

/// The bit pattern of a binary64 number.
#[derive(Debug, Clone, Copy, PartialEq, Eq, Structural)]
pub struct F64Bits {
    pub bits: u64,
}

/// The bit pattern of a binary32 number.
#[derive(Debug, Clone, Copy, PartialEq, Eq, Structural)]
pub struct F32Bits {
    pub bits: u32,
}

impl F64Bits {
    /// The bit pattern of the number one.
    pub open spec fn one() -> F64Bits {
        F64Bits { bits: 0x3FF0_0000_0000_0000 }
    }
}

/// Whether a key or a button went down or came up.
#[derive(Debug, Clone, Copy, PartialEq, Eq, Structural)]
pub enum ElementState {
    Pressed,
    Released,
}

/// When device-scoped events reach the handler.
#[derive(Debug, Clone, Copy, PartialEq, Eq, Structural)]
pub enum DeviceEventFilter {
    /// They are delivered whether or not the application is focused.
    Always,
    /// They are held back while the application is not focused.
    Unfocused,
    /// They are never delivered.
    Never,
}

impl DeviceEventFilter {
    /// Whether a device-scoped event passes, given the focus of the application.
    pub open spec fn admits(self, focused: bool) -> bool {
        match self {
            DeviceEventFilter::Always => true,
            DeviceEventFilter::Unfocused => focused,
            DeviceEventFilter::Never => false,
        }
    }

    /// Decides whether a device-scoped event is delivered.
    pub fn delivers(self, focused: bool) -> (delivered: bool)
        ensures
            delivered == self.admits(focused),
    {
        match self {
            DeviceEventFilter::Always => true,
            DeviceEventFilter::Unfocused => focused,
            DeviceEventFilter::Never => false,
        }
    }
}

/// A size in logical pixels.
#[derive(Debug, Clone, Copy, PartialEq, Eq, Structural)]
pub struct LogicalSize {
    pub width: F64Bits,
    pub height: F64Bits,
}

/// A size in physical pixels.
#[derive(Debug, Clone, Copy, PartialEq, Eq, Structural)]
pub struct PhysicalSizeU32 {
    pub width: u32,
    pub height: u32,
}

/// A position in physical pixels.
#[derive(Debug, Clone, Copy, PartialEq, Eq, Structural)]
pub struct PhysicalPositionI32 {
    pub x: i32,
    pub y: i32,
}

/// A position in physical pixels with fractional coordinates.
#[derive(Debug, Clone, Copy, PartialEq, Eq, Structural)]
pub struct PhysicalPositionF64 {
    pub x: F64Bits,
    pub y: F64Bits,
}

/// What a handler tells the loop after an event.
#[derive(Debug, Clone, Copy, PartialEq, Eq, Structural)]
pub enum ControlFlow {
    /// Keep the current control flow unchanged.
    Keep,
    /// Sleep until the next event arrives.
    Wait,
    /// Start the next iteration at once.
    Poll,
    /// Stop the loop when the current event has been handled.
    Exit,
    /// Sleep until an event arrives or `duration_ms` milliseconds have passed.
    WaitUntil { duration_ms: u64 },
}

/// The meaning of a key press.
#[derive(Debug, Clone, PartialEq, Eq)]
pub enum Key {
    Escape,
    ArrowLeft,
    ArrowRight,
    Character { value: String },
    Other { value: String },
}

/// The physical key that was pressed.
#[derive(Debug, Clone, PartialEq, Eq)]
pub enum KeyCode {
    Space,
    KeyA,
    KeyD,
    KeyL,
    KeyM,
    KeyV,
    Other { value: String },
}

/// Which modifier keys are held.
#[derive(Debug, Clone, Copy, PartialEq, Eq, Structural)]
pub struct ModifiersState {
    pub shift: bool,
    pub control: bool,
    pub alt: bool,
    pub super_key: bool,
}

/// A button of the mouse.
#[derive(Debug, Clone, Copy, PartialEq, Eq, Structural)]
pub enum MouseButton {
    Left,
    Right,
    Middle,
    Other { value: u16 },
}

/// How far the wheel was turned.
#[derive(Debug, Clone, PartialEq, Eq)]
#[allow(inconsistent_fields)]
pub enum MouseScrollDelta {
    LineDelta { x: F32Bits, y: F32Bits },
    PixelDelta { x: F64Bits, y: F64Bits },
    Other { value: String },
}

/// The colour scheme of a window.
#[derive(Debug, Clone, Copy, PartialEq, Eq, Structural)]
pub enum Theme {
    Light,
    Dark,
}

/// The shape of the mouse cursor.
#[derive(Debug, Clone, Copy, PartialEq, Eq, Structural)]
pub enum CursorIcon {
    Default,
    Crosshair,
    Hand,
    Arrow,
    Move,
    Text,
    Wait,
    Help,
    Progress,
    NotAllowed,
    ContextMenu,
    Cell,
    VerticalText,
    Alias,
    Copy,
    NoDrop,
    Grab,
    Grabbing,
    AllScroll,
    ZoomIn,
    ZoomOut,
    EResize,
    NResize,
    NeResize,
    NwResize,
    SResize,
    SeResize,
    SwResize,
    WResize,
    EwResize,
    NsResize,
    NeswResize,
    NwseResize,
    ColResize,
    RowResize,
}

/// The state of a progress indicator.
#[derive(Debug, Clone, Copy, PartialEq, Eq, Structural)]
pub enum ProgressState {
    /// No progress is shown.
    Hidden,
    Normal,
    Indeterminate,
    Paused,
    Error,
}

/// What a window's progress indicator shows.
#[derive(Debug, Clone, PartialEq, Eq)]
pub struct ProgressBarState {
    pub progress: Option<u64>,
    pub state: Option<ProgressState>,
    pub desktop_filename: Option<String>,
}

} // verus!
