//! Graphics backends and the platform handles that a rendering backend
//! needs to attach a surface to a window.

use vstd::prelude::*;
use crate::error::TaoError;
use crate::platform::Platform;
use crate::types::{F64Bits, PhysicalSizeU32};

verus! {

/// Supported graphics backends.
#[derive(Debug, Clone, Copy, PartialEq, Eq, Structural)]
pub enum GraphicsBackend {
    /// Metal (macOS, iOS)
    Metal,
    /// Vulkan (Linux, the BSDs, Windows, Android)
    Vulkan,
    /// DirectX 12 (Windows)
    DirectX12,
    /// OpenGL (the fallback, available everywhere)
    OpenGL,
}

impl GraphicsBackend {
    /// The backend that a platform prefers.
    pub open spec fn preferred(platform: Platform) -> GraphicsBackend {
        if platform is MacOs || platform is Ios {
            GraphicsBackend::Metal
        } else if platform is Windows {
            GraphicsBackend::DirectX12
        } else if platform.unix_desktop() || platform is Android {
            GraphicsBackend::Vulkan
        } else {
            GraphicsBackend::OpenGL
        }
    }

    /// Whether the backend exists on a platform.
    pub open spec fn supported_on(self, platform: Platform) -> bool {
        match self {
            GraphicsBackend::Metal => platform is MacOs || platform is Ios,
            GraphicsBackend::Vulkan => platform.unix_desktop() || platform is Windows
                || platform is Android,
            GraphicsBackend::DirectX12 => platform is Windows,
            GraphicsBackend::OpenGL => true,
        }
    }

    /// Returns the default backend for `platform`, which that platform supports.
    pub fn default_for_platform(platform: Platform) -> (backend: GraphicsBackend)
        ensures
            backend == Self::preferred(platform),
            backend.supported_on(platform),
    {
        match platform {
            Platform::MacOs | Platform::Ios => GraphicsBackend::Metal,
            Platform::Windows => GraphicsBackend::DirectX12,
            Platform::Linux
            | Platform::Dragonfly
            | Platform::FreeBsd
            | Platform::NetBsd
            | Platform::OpenBsd
            | Platform::Android => GraphicsBackend::Vulkan,
            Platform::Other => GraphicsBackend::OpenGL,
        }
    }

    /// Returns true if this backend is supported on `platform`.
    pub fn is_supported(&self, platform: Platform) -> (supported: bool)
        ensures
            supported == self.supported_on(platform),
    {
        match self {
            GraphicsBackend::Metal => match platform {
                Platform::MacOs | Platform::Ios => true,
                _ => false,
            },
            GraphicsBackend::Vulkan => match platform {
                Platform::Windows | Platform::Android => true,
                _ => platform.is_unix_desktop(),
            },
            GraphicsBackend::DirectX12 => match platform {
                Platform::Windows => true,
                _ => false,
            },
            GraphicsBackend::OpenGL => true,
        }
    }
}

/// The handles that the native engine reported for one window, each as an
/// integer. A handle that the engine did not report is `None`.
#[derive(Debug, Clone, Copy, PartialEq, Eq, Structural)]
pub struct PlatformHandles {
    /// NSView pointer (macOS).
    pub ns_view: Option<u64>,
    /// NSWindow pointer (macOS).
    pub ns_window: Option<u64>,
    /// UIView pointer (iOS).
    pub ui_view: Option<u64>,
    /// UIWindow pointer (iOS).
    pub ui_window: Option<u64>,
    /// HWND handle (Windows).
    pub hwnd: Option<u64>,
    /// HINSTANCE handle (Windows).
    pub hinstance: Option<u64>,
    /// X11 window id.
    pub xlib_window: Option<u64>,
    /// X11 display pointer.
    pub xlib_display: Option<u64>,
    /// X11 screen number.
    pub xlib_screen: Option<i32>,
    /// Wayland surface pointer.
    pub wayland_surface: Option<u64>,
    /// Wayland display pointer.
    pub wayland_display: Option<u64>,
}

impl PlatformHandles {
    pub open spec fn absent() -> PlatformHandles {
        PlatformHandles {
            ns_view: None,
            ns_window: None,
            ui_view: None,
            ui_window: None,
            hwnd: None,
            hinstance: None,
            xlib_window: None,
            xlib_display: None,
            xlib_screen: None,
            wayland_surface: None,
            wayland_display: None,
        }
    }

    /// The handles of a window for which the engine reported nothing.
    pub fn none() -> (handles: PlatformHandles)
        ensures
            handles == Self::absent(),
    {
        PlatformHandles {
            ns_view: None,
            ns_window: None,
            ui_view: None,
            ui_window: None,
            hwnd: None,
            hinstance: None,
            xlib_window: None,
            xlib_display: None,
            xlib_screen: None,
            wayland_surface: None,
            wayland_display: None,
        }
    }
}

/// Raw window handle containing platform-specific window information:
/// a backend tag and, of all the fields, only those of the window's own
/// platform populated.
#[derive(Debug, Clone, Copy, PartialEq, Eq, Structural)]
pub struct RawWindowHandle {
    /// The graphics backend this handle is meant for.
    pub backend: GraphicsBackend,
    /// NSView pointer (macOS), used for Metal layer attachment.
    pub ns_view: Option<u64>,
    /// NSWindow pointer (macOS).
    pub ns_window: Option<u64>,
    /// UIView pointer (iOS), used for Metal layer attachment.
    pub ui_view: Option<u64>,
    /// UIWindow pointer (iOS).
    pub ui_window: Option<u64>,
    /// HWND handle (Windows).
    pub hwnd: Option<u64>,
    /// HINSTANCE handle (Windows).
    pub hinstance: Option<u64>,
    /// X11 window id.
    pub xlib_window: Option<u64>,
    /// X11 display pointer.
    pub xlib_display: Option<u64>,
    /// X11 visual id, for OpenGL context creation.
    pub xlib_visual_id: Option<u64>,
    /// X11 screen number.
    pub xlib_screen: Option<i32>,
    /// Wayland surface pointer.
    pub wayland_surface: Option<u64>,
    /// Wayland display pointer.
    pub wayland_display: Option<u64>,
    /// ANativeWindow pointer (Android).
    pub android_native_window: Option<u64>,
    /// Window width in physical pixels.
    pub width: u32,
    /// Window height in physical pixels.
    pub height: u32,
    /// Scale factor (DPI scaling).
    pub scale_factor: F64Bits,
}

impl RawWindowHandle {
    /// The handle without any platform data: the platform's preferred
    /// backend, no size and a scale factor of one.
    pub open spec fn blank(platform: Platform) -> RawWindowHandle {
        RawWindowHandle {
            backend: GraphicsBackend::preferred(platform),
            ns_view: None,
            ns_window: None,
            ui_view: None,
            ui_window: None,
            hwnd: None,
            hinstance: None,
            xlib_window: None,
            xlib_display: None,
            xlib_visual_id: None,
            xlib_screen: None,
            wayland_surface: None,
            wayland_display: None,
            android_native_window: None,
            width: 0,
            height: 0,
            scale_factor: F64Bits::one(),
        }
    }

    /// Whether the handle holds what its backend needs to create a surface.
    pub open spec fn valid(self) -> bool {
        match self.backend {
            GraphicsBackend::Metal => self.ns_view is Some || self.ui_view is Some,
            GraphicsBackend::DirectX12 => self.hwnd is Some,
            GraphicsBackend::Vulkan => self.hwnd is Some || self.xlib_window is Some
                || self.wayland_surface is Some || self.android_native_window is Some,
            GraphicsBackend::OpenGL => self.ns_view is Some || self.hwnd is Some
                || self.xlib_window is Some || self.wayland_surface is Some,
        }
    }

    /// The handle for `backend` of a window on `platform` for which the
    /// engine reported `handles`: the fields of other platforms stay empty.
    pub open spec fn populated(
        backend: GraphicsBackend,
        platform: Platform,
        handles: PlatformHandles,
        size: PhysicalSizeU32,
        scale_factor: F64Bits,
    ) -> RawWindowHandle {
        RawWindowHandle {
            backend,
            ns_view: if platform is MacOs { handles.ns_view } else { None },
            ns_window: if platform is MacOs { handles.ns_window } else { None },
            ui_view: if platform is Ios { handles.ui_view } else { None },
            ui_window: if platform is Ios { handles.ui_window } else { None },
            hwnd: if platform is Windows { handles.hwnd } else { None },
            hinstance: if platform is Windows { handles.hinstance } else { None },
            xlib_window: if platform.unix_desktop() { handles.xlib_window } else { None },
            xlib_display: if platform.unix_desktop() { handles.xlib_display } else { None },
            xlib_visual_id: None,
            xlib_screen: if platform.unix_desktop() { handles.xlib_screen } else { None },
            wayland_surface: if platform.unix_desktop() { handles.wayland_surface } else { None },
            wayland_display: if platform.unix_desktop() { handles.wayland_display } else { None },
            android_native_window: None,
            width: size.width,
            height: size.height,
            scale_factor,
        }
    }

    /// Creates an empty handle with default values. It is never valid.
    pub fn empty(platform: Platform) -> (handle: RawWindowHandle)
        ensures
            handle == Self::blank(platform),
            !handle.valid(),
    {
        RawWindowHandle {
            backend: GraphicsBackend::default_for_platform(platform),
            ns_view: None,
            ns_window: None,
            ui_view: None,
            ui_window: None,
            hwnd: None,
            hinstance: None,
            xlib_window: None,
            xlib_display: None,
            xlib_visual_id: None,
            xlib_screen: None,
            wayland_surface: None,
            wayland_display: None,
            android_native_window: None,
            width: 0,
            height: 0,
            scale_factor: F64Bits { bits: 0x3FF0_0000_0000_0000 },
        }
    }

    /// Returns true if this handle has valid platform-specific data.
    pub fn is_valid(&self) -> (valid: bool)
        ensures
            valid == self.valid(),
    {
        match self.backend {
            GraphicsBackend::Metal => self.ns_view.is_some() || self.ui_view.is_some(),
            GraphicsBackend::DirectX12 => self.hwnd.is_some(),
            GraphicsBackend::Vulkan => {
                self.hwnd.is_some() || self.xlib_window.is_some()
                    || self.wayland_surface.is_some() || self.android_native_window.is_some()
            },
            GraphicsBackend::OpenGL => {
                self.ns_view.is_some() || self.hwnd.is_some() || self.xlib_window.is_some()
                    || self.wayland_surface.is_some()
            },
        }
    }

    /// Builds the handle for `backend` from what the engine reported for a
    /// window on `platform`, and rejects it with `Unsupported` unless the
    /// backend finds in it what it needs.
    pub fn for_backend(
        backend: GraphicsBackend,
        platform: Platform,
        handles: &PlatformHandles,
        size: PhysicalSizeU32,
        scale_factor: F64Bits,
    ) -> (result: Result<RawWindowHandle, TaoError>)
        ensures
            Self::populated(backend, platform, *handles, size, scale_factor).valid() ==> result
                == Ok::<RawWindowHandle, TaoError>(
                Self::populated(backend, platform, *handles, size, scale_factor),
            ),
            !Self::populated(backend, platform, *handles, size, scale_factor).valid() ==> result
                == Err::<RawWindowHandle, TaoError>(TaoError::Unsupported),
    {
        let mut handle = RawWindowHandle {
            backend,
            ns_view: None,
            ns_window: None,
            ui_view: None,
            ui_window: None,
            hwnd: None,
            hinstance: None,
            xlib_window: None,
            xlib_display: None,
            xlib_visual_id: None,
            xlib_screen: None,
            wayland_surface: None,
            wayland_display: None,
            android_native_window: None,
            width: size.width,
            height: size.height,
            scale_factor,
        };
        match platform {
            Platform::MacOs => {
                handle.ns_view = handles.ns_view;
                handle.ns_window = handles.ns_window;
            },
            Platform::Ios => {
                handle.ui_view = handles.ui_view;
                handle.ui_window = handles.ui_window;
            },
            Platform::Windows => {
                handle.hwnd = handles.hwnd;
                handle.hinstance = handles.hinstance;
            },
            Platform::Linux
            | Platform::Dragonfly
            | Platform::FreeBsd
            | Platform::NetBsd
            | Platform::OpenBsd => {
                handle.xlib_window = handles.xlib_window;
                handle.xlib_display = handles.xlib_display;
                handle.xlib_screen = handles.xlib_screen;
                handle.wayland_surface = handles.wayland_surface;
                handle.wayland_display = handles.wayland_display;
            },
            Platform::Android | Platform::Other => {},
        }
        if !handle.is_valid() {
            return Err(TaoError::Unsupported);
        }
        Ok(handle)
    }
}

} // verus!
