//! Windows as the library knows them: a stable id, the platform the window
//! lives on and the handles the native engine reported for it; and the
//! configuration from which a window is realised.

use vstd::prelude::*;
use vstd::string::StringExecFns;
use crate::error::TaoError;
use crate::graphics::{GraphicsBackend, PlatformHandles, RawWindowHandle};
use crate::platform::Platform;
use crate::text::{decimal, decimal_string};
use crate::types::{F64Bits, LogicalSize, PhysicalSizeU32, Theme};

verus! {

/// What the native engine reports of a window that it has just realised.
#[derive(Debug, Clone, Copy, PartialEq, Eq, Structural)]
pub struct NativeWindow {
    /// The engine's own id of the window.
    pub native_id: u64,
    /// The platform handles of the window.
    pub handles: PlatformHandles,
}

/// A realised window.
#[derive(Debug, Clone, Copy, PartialEq, Eq, Structural)]
pub struct Window {
    pub(crate) id: u64,
    pub(crate) platform: Platform,
    pub(crate) handles: PlatformHandles,
}

/// A handle that exists only on some platforms: `Unsupported` on every
/// other platform and where the engine did not report it.
pub open spec fn platform_handle<T>(on_platform: bool, handle: Option<T>) -> Result<T, TaoError> {
    match handle {
        Some(value) if on_platform => Ok(value),
        _ => Err(TaoError::Unsupported),
    }
}

impl Window {
    pub closed spec fn stable_id(&self) -> u64 {
        self.id
    }

    pub closed spec fn platform(&self) -> Platform {
        self.platform
    }

    pub closed spec fn handles(&self) -> PlatformHandles {
        self.handles
    }

    /// What `debug_string` renders.
    pub open spec fn debug_text(&self) -> Seq<char> {
        "Window(id="@ + decimal(self.stable_id() as nat) + ")"@
    }

    /// The window with the given stable id on `platform`.
    pub fn new(id: u64, platform: Platform, handles: PlatformHandles) -> (window: Window)
        ensures
            window.stable_id() == id,
            window.platform() == platform,
            window.handles() == handles,
    {
        Window { id, platform, handles }
    }

    /// The stable id of the window.
    pub fn id(&self) -> (id: u64)
        ensures
            id == self.stable_id(),
    {
        self.id
    }

    fn handle_on<T: Copy>(on_platform: bool, handle: Option<T>) -> (result: Result<T, TaoError>)
        ensures
            result == platform_handle(on_platform, handle),
    {
        match handle {
            Some(value) => if on_platform {
                Ok(value)
            } else {
                Err(TaoError::Unsupported)
            },
            None => Err(TaoError::Unsupported),
        }
    }

    fn on_macos(&self) -> (on: bool)
        ensures
            on == (self.platform() is MacOs),
    {
        match self.platform {
            Platform::MacOs => true,
            _ => false,
        }
    }

    fn on_windows(&self) -> (on: bool)
        ensures
            on == (self.platform() is Windows),
    {
        match self.platform {
            Platform::Windows => true,
            _ => false,
        }
    }

    /// Returns the NSView pointer (macOS only).
    pub fn ns_view_handle(&self) -> (result: Result<u64, TaoError>)
        ensures
            result == platform_handle(self.platform() is MacOs, self.handles().ns_view),
    {
        Self::handle_on(self.on_macos(), self.handles.ns_view)
    }

    /// Returns the NSWindow pointer (macOS only).
    pub fn ns_window_handle(&self) -> (result: Result<u64, TaoError>)
        ensures
            result == platform_handle(self.platform() is MacOs, self.handles().ns_window),
    {
        Self::handle_on(self.on_macos(), self.handles.ns_window)
    }

    /// Returns the HWND handle (Windows only).
    pub fn hwnd_handle(&self) -> (result: Result<u64, TaoError>)
        ensures
            result == platform_handle(self.platform() is Windows, self.handles().hwnd),
    {
        Self::handle_on(self.on_windows(), self.handles.hwnd)
    }

    /// Returns the HINSTANCE handle (Windows only).
    pub fn hinstance_handle(&self) -> (result: Result<u64, TaoError>)
        ensures
            result == platform_handle(self.platform() is Windows, self.handles().hinstance),
    {
        Self::handle_on(self.on_windows(), self.handles.hinstance)
    }

    /// Returns the X11 window ID (Linux and the BSDs on X11 only).
    pub fn xlib_window_handle(&self) -> (result: Result<u64, TaoError>)
        ensures
            result == platform_handle(self.platform().unix_desktop(), self.handles().xlib_window),
    {
        Self::handle_on(self.platform.is_unix_desktop(), self.handles.xlib_window)
    }

    /// Returns the X11 display pointer (Linux and the BSDs on X11 only).
    pub fn xlib_display_handle(&self) -> (result: Result<u64, TaoError>)
        ensures
            result == platform_handle(self.platform().unix_desktop(), self.handles().xlib_display),
    {
        Self::handle_on(self.platform.is_unix_desktop(), self.handles.xlib_display)
    }

    /// Returns the X11 screen ID (Linux and the BSDs on X11 only).
    pub fn xlib_screen_id(&self) -> (result: Result<i32, TaoError>)
        ensures
            result == platform_handle(self.platform().unix_desktop(), self.handles().xlib_screen),
    {
        Self::handle_on(self.platform.is_unix_desktop(), self.handles.xlib_screen)
    }

    /// Returns the Wayland surface pointer (Linux and the BSDs on Wayland only).
    pub fn wayland_surface_handle(&self) -> (result: Result<u64, TaoError>)
        ensures
            result == platform_handle(
                self.platform().unix_desktop(),
                self.handles().wayland_surface,
            ),
    {
        Self::handle_on(self.platform.is_unix_desktop(), self.handles.wayland_surface)
    }

    /// Returns the Wayland display pointer (Linux and the BSDs on Wayland only).
    pub fn wayland_display_handle(&self) -> (result: Result<u64, TaoError>)
        ensures
            result == platform_handle(
                self.platform().unix_desktop(),
                self.handles().wayland_display,
            ),
    {
        Self::handle_on(self.platform.is_unix_desktop(), self.handles.wayland_display)
    }

    /// Returns the raw window handle for the platform's preferred backend.
    /// `size` and `scale_factor` are the window's current inner size and
    /// scale factor.
    pub fn raw_window_handle(&self, size: PhysicalSizeU32, scale_factor: F64Bits) -> (result:
        Result<RawWindowHandle, TaoError>)
        ensures
            result == self.raw_handle(
                GraphicsBackend::preferred(self.platform()),
                size,
                scale_factor,
            ),
    {
        self.raw_window_handle_for_backend(
            GraphicsBackend::default_for_platform(self.platform),
            size,
            scale_factor,
        )
    }

    /// What `raw_window_handle_for_backend` returns.
    pub open spec fn raw_handle(
        &self,
        backend: GraphicsBackend,
        size: PhysicalSizeU32,
        scale_factor: F64Bits,
    ) -> Result<RawWindowHandle, TaoError> {
        let handle = RawWindowHandle::populated(
            backend,
            self.platform(),
            self.handles(),
            size,
            scale_factor,
        );
        if handle.valid() {
            Ok(handle)
        } else {
            Err(TaoError::Unsupported)
        }
    }

    /// Returns the raw window handle for a specific graphics backend: the
    /// handles of the window's own platform, its size and scale factor; or
    /// `Unsupported` where the backend does not find there what it needs.
    pub fn raw_window_handle_for_backend(
        &self,
        backend: GraphicsBackend,
        size: PhysicalSizeU32,
        scale_factor: F64Bits,
    ) -> (result: Result<RawWindowHandle, TaoError>)
        ensures
            result == self.raw_handle(backend, size, scale_factor),
    {
        RawWindowHandle::for_backend(backend, self.platform, &self.handles, size, scale_factor)
    }

    pub fn debug_string(&self) -> (text: String)
        ensures
            text@ == self.debug_text(),
    {
        let number = decimal_string(self.id);
        String::from_str("Window(id=").concat(number.as_str()).concat(")")
    }
}

/// The configuration from which a window is realised. It is a plain value:
/// it holds no live resource and can be filled on any thread.
#[derive(Debug, Clone, PartialEq, Eq)]
pub struct WindowBuilder {
    pub title: Option<String>,
    pub inner_size: Option<LogicalSize>,
    pub min_inner_size: Option<LogicalSize>,
    pub decorations: Option<bool>,
    pub resizable: Option<bool>,
    pub transparent: Option<bool>,
    pub theme: Option<Theme>,
    /// The stable id of the window that the new window belongs to.
    pub parent: Option<u64>,
}

impl WindowBuilder {
    /// Whether a window on `platform` can be given a parent.
    pub open spec fn parenting_supported(platform: Platform) -> bool {
        platform is MacOs || platform is Windows || platform.unix_desktop()
    }

    /// A configuration that sets nothing: the engine's defaults apply.
    pub fn new() -> (builder: WindowBuilder)
        ensures
            builder == (WindowBuilder {
                title: None,
                inner_size: None,
                min_inner_size: None,
                decorations: None,
                resizable: None,
                transparent: None,
                theme: None,
                parent: None,
            }),
    {
        WindowBuilder {
            title: None,
            inner_size: None,
            min_inner_size: None,
            decorations: None,
            resizable: None,
            transparent: None,
            theme: None,
            parent: None,
        }
    }

    pub fn set_title(&mut self, title: String)
        ensures
            *final(self) == (WindowBuilder { title: Some(title), ..*old(self) }),
    {
        self.title = Some(title);
    }

    pub fn set_inner_size(&mut self, size: LogicalSize)
        ensures
            *final(self) == (WindowBuilder { inner_size: Some(size), ..*old(self) }),
    {
        self.inner_size = Some(size);
    }

    pub fn set_min_inner_size(&mut self, size: LogicalSize)
        ensures
            *final(self) == (WindowBuilder { min_inner_size: Some(size), ..*old(self) }),
    {
        self.min_inner_size = Some(size);
    }

    pub fn set_decorations(&mut self, decorations: bool)
        ensures
            *final(self) == (WindowBuilder { decorations: Some(decorations), ..*old(self) }),
    {
        self.decorations = Some(decorations);
    }

    pub fn set_resizable(&mut self, resizable: bool)
        ensures
            *final(self) == (WindowBuilder { resizable: Some(resizable), ..*old(self) }),
    {
        self.resizable = Some(resizable);
    }

    pub fn set_transparent(&mut self, transparent: bool)
        ensures
            *final(self) == (WindowBuilder { transparent: Some(transparent), ..*old(self) }),
    {
        self.transparent = Some(transparent);
    }

    pub fn set_theme(&mut self, theme: Option<Theme>)
        ensures
            *final(self) == (WindowBuilder { theme, ..*old(self) }),
    {
        self.theme = theme;
    }

    /// Makes the new window a child of `parent`, where the parent's
    /// platform knows of such a relation. Elsewhere the configuration stays
    /// as it is and the result is `Unsupported`.
    pub fn set_parent_window(&mut self, parent: &Window) -> (result: Result<(), TaoError>)
        ensures
            Self::parenting_supported(parent.platform()) ==> result == Ok::<(), TaoError>(())
                && *final(self) == (WindowBuilder {
                parent: Some(parent.stable_id()),
                ..*old(self)
            }),
            !Self::parenting_supported(parent.platform()) ==> result == Err::<(), TaoError>(
                TaoError::Unsupported,
            ) && *final(self) == *old(self),
    {
        let supported = match parent.platform {
            Platform::MacOs | Platform::Windows => true,
            _ => parent.platform.is_unix_desktop(),
        };
        if supported {
            self.parent = Some(parent.id);
            Ok(())
        } else {
            Err(TaoError::Unsupported)
        }
    }
}

} // verus!
