//! The run configuration and the application handle: the object through
//! which a handler creates windows and asks for monitors while a callback
//! runs.

use vstd::prelude::*;
use crate::error::{NativeFailure, TaoError};
use crate::events::{convert_event, NativeEvent, TaoEvent};
use crate::platform::Platform;
use crate::registry::{RegistryModel, WindowRegistry};
use crate::target::TargetSlot;
use crate::types::DeviceEventFilter;
use crate::window::{NativeWindow, Window};

verus! {

/// The options of a run of the event loop.
#[derive(Debug, Clone, Copy, PartialEq, Eq, Structural)]
pub struct RunConfig {
    pub device_event_filter: DeviceEventFilter,
}

impl Default for RunConfig {
    /// Device events are held back while the application is not focused.
    fn default() -> (config: RunConfig)
        ensures
            config == (RunConfig { device_event_filter: DeviceEventFilter::Unfocused }),
    {
        RunConfig { device_event_filter: DeviceEventFilter::Unfocused }
    }
}

impl RunConfig {
    /// Whether `event` reaches the handler: only a device-scoped event can
    /// be held back, by the device event filter.
    pub open spec fn admits(self, event: NativeEvent, focused: bool) -> bool {
        event is DeviceEvent ==> self.device_event_filter.admits(focused)
    }

    /// Decides whether `event` is delivered to the handler.
    pub fn delivers(&self, event: &NativeEvent, focused: bool) -> (delivered: bool)
        ensures
            delivered == self.admits(*event, focused),
    {
        if event.is_device_event() {
            self.device_event_filter.delivers(focused)
        } else {
            true
        }
    }
}

/// The application handle. It owns the window identity registry and lives
/// as long as the run of the loop.
pub struct App {
    platform: Platform,
    registry: WindowRegistry,
}

impl App {
    /// What the registry of the handle knows.
    pub closed spec fn registry(&self) -> RegistryModel {
        self.registry@
    }

    /// The platform that the handle was made for.
    pub closed spec fn platform(&self) -> Platform {
        self.platform
    }

    /// The window that the handle makes of what the engine realised.
    pub open spec fn is_window_for(&self, window: Window, native: NativeWindow) -> bool {
        &&& window.stable_id() == self.registry().resolved(native.native_id)
        &&& window.platform() == self.platform()
        &&& window.handles() == native.handles
    }

    /// How a request to create a window ends, given what the engine
    /// answered: its error is passed on as a `Message` and the registry
    /// stays as it is; its window gets a stable id.
    pub open spec fn creation_ends(
        &self,
        built: Result<NativeWindow, String>,
        result: Result<Window, TaoError>,
        registry_after: RegistryModel,
    ) -> bool {
        match built {
            Ok(native) => {
                &&& result matches Ok(window) && self.is_window_for(window, native)
                &&& registry_after == self.registry().after(native.native_id)
            },
            Err(rendered) => {
                &&& result matches Err(error) && error matches TaoError::Message { details }
                    && details@ == rendered@
                &&& registry_after == self.registry()
            },
        }
    }

    /// A handle for `platform` that knows no window yet.
    pub fn new(platform: Platform) -> (app: App)
        ensures
            app.platform() == platform,
            app.registry() == RegistryModel::empty(),
            app.registry().wf(),
    {
        App { platform, registry: WindowRegistry::new() }
    }

    /// Returns the stable id of the window that the engine calls
    /// `native_id`: the one it has, or else the next free one, which it
    /// then keeps.
    pub fn map_window_id(&mut self, native_id: u64) -> (id: u64)
        ensures
            id == old(self).registry().resolved(native_id),
            final(self).registry() == old(self).registry().after(native_id),
            final(self).platform() == old(self).platform(),
            old(self).registry().wf() && (old(self).registry().knows(native_id)
                || old(self).registry().has_room(1)) ==> final(self).registry().wf(),
    {
        self.registry.resolve(native_id)
    }

    /// Translates a native event for the handler. The window of the event,
    /// where it has one, is named by its stable id, which a window that was
    /// not seen before gets here.
    pub fn translate(&mut self, event: NativeEvent) -> (converted: TaoEvent)
        ensures
            final(self).platform() == old(self).platform(),
            match event.window() {
                Some(window) => {
                    &&& converted == event.translated(old(self).registry().resolved(window))
                    &&& final(self).registry() == old(self).registry().after(window)
                },
                None => {
                    &&& converted == event.translated(0)
                    &&& final(self).registry() == old(self).registry()
                },
            },
    {
        match event.window_of() {
            Some(window) => {
                let id = self.map_window_id(window);
                let resolved = |_native: u64| -> (stable: u64)
                    ensures
                        stable == id,
                    {
                        id
                    };
                convert_event(event, resolved)
            },
            None => {
                let unused = |native: u64| -> (stable: u64)
                    ensures
                        stable == native,
                    {
                        native
                    };
                convert_event(event, unused)
            },
        }
    }

    /// Finishes the creation of a window with what the engine answered.
    pub fn window_created(&mut self, built: Result<NativeWindow, String>) -> (result: Result<
        Window,
        TaoError,
    >)
        ensures
            final(self).platform() == old(self).platform(),
            old(self).creation_ends(built, result, final(self).registry()),
    {
        match built {
            Ok(native) => {
                let id = self.map_window_id(native.native_id);
                Ok(Window::new(id, self.platform, native.handles))
            },
            Err(rendered) => Err(TaoError::from_native(NativeFailure::Os, rendered.as_str())),
        }
    }

    /// Creates a window. `build` asks the engine to realise it in the bound
    /// context and returns what the engine reports, or the engine's
    /// rendering of its refusal. Outside of a callback `build` is not run
    /// and the result is `NotBound`.
    pub fn create_window<F>(&mut self, slot: &TargetSlot, build: F) -> (result: Result<
        Window,
        TaoError,
    >) where F: FnOnce(u64) -> Result<NativeWindow, String>
        requires
            slot.target() matches Some(target) ==> call_requires(build, (target,)),
        ensures
            final(self).platform() == old(self).platform(),
            match slot.target() {
                Some(target) => exists|built: Result<NativeWindow, String>| #[trigger]
                    call_ensures(build, (target,), built) && old(self).creation_ends(
                        built,
                        result,
                        final(self).registry(),
                    ),
                None => {
                    &&& result matches Err(error) && error == TaoError::NotBound
                    &&& final(self).registry() == old(self).registry()
                },
            },
    {
        match slot.with_target(build) {
            Ok(built) => self.window_created(built),
            Err(error) => Err(error),
        }
    }

    /// Asks the engine for the monitors it knows, in the bound context.
    /// Outside of a callback `query` is not run and the result is `NotBound`.
    pub fn available_monitors<M, F>(&self, slot: &TargetSlot, query: F) -> (result: Result<
        Vec<M>,
        TaoError,
    >) where F: FnOnce(u64) -> Vec<M>
        requires
            slot.target() matches Some(target) ==> call_requires(query, (target,)),
        ensures
            match slot.target() {
                Some(target) => result matches Ok(monitors) && call_ensures(
                    query,
                    (target,),
                    monitors,
                ),
                None => result matches Err(error) && error == TaoError::NotBound,
            },
    {
        slot.with_target(query)
    }

    /// Asks the engine for its primary monitor, in the bound context.
    /// Outside of a callback `query` is not run and the result is `NotBound`.
    pub fn primary_monitor<M, F>(&self, slot: &TargetSlot, query: F) -> (result: Result<
        Option<M>,
        TaoError,
    >) where F: FnOnce(u64) -> Option<M>
        requires
            slot.target() matches Some(target) ==> call_requires(query, (target,)),
        ensures
            match slot.target() {
                Some(target) => result matches Ok(monitor) && call_ensures(
                    query,
                    (target,),
                    monitor,
                ),
                None => result matches Err(error) && error == TaoError::NotBound,
            },
    {
        slot.with_target(query)
    }
}

} // verus!
