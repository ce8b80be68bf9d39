//! The verified core of a binding layer over a native windowing and
//! event-loop engine: window identities, event translation, the scoped
//! event-loop context, the loop driver's decisions and the validation of
//! platform handles.

pub mod app;
pub mod driver;
pub mod error;
pub mod events;
pub mod graphics;
pub mod platform;
pub mod registry;
pub mod target;
pub mod text;
pub mod types;
pub mod window;

pub use app::{App, RunConfig};
pub use driver::{
    CooperativeLoop, CooperativeStep, DriverPhase, DriverState, LoopControl, LoopDriver,
};
pub use error::{NativeFailure, TaoError};
pub use events::{
    convert_event, KeyEvent, NativeEvent, RawKeyEvent, TaoDeviceEvent, TaoEvent, TaoStartCause,
    TaoUserEvent, TaoWindowEvent,
};
pub use graphics::{GraphicsBackend, PlatformHandles, RawWindowHandle};
pub use platform::Platform;
pub use registry::{RegistryModel, WindowRegistry};
pub use target::TargetSlot;
pub use types::{
    ControlFlow, CursorIcon, DeviceEventFilter, ElementState, F32Bits, F64Bits, Key, KeyCode,
    LogicalSize, ModifiersState, MouseButton, MouseScrollDelta, PhysicalPositionF64,
    PhysicalPositionI32, PhysicalSizeU32, ProgressBarState, ProgressState, Theme,
};
pub use window::{NativeWindow, Window, WindowBuilder};
