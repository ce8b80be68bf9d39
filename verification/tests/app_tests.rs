use taokt::{
    App, DeviceEventFilter, ElementState, NativeEvent, NativeWindow, Platform, PlatformHandles,
    RunConfig, TaoDeviceEvent, TaoError, TargetSlot, TaoWindowEvent,
};

fn native_window(native_id: u64) -> NativeWindow {
    NativeWindow {
        native_id,
        handles: PlatformHandles::none(),
    }
}

#[test]
fn run_config_defaults_to_unfocused() {
    let config = RunConfig::default();
    assert_eq!(config.device_event_filter, DeviceEventFilter::Unfocused);
}

#[test]
fn run_config_holds_back_only_device_events() {
    let device = NativeEvent::DeviceEvent {
        event: TaoDeviceEvent::Button {
            button: 2,
            state: ElementState::Released,
        },
    };
    let window = NativeEvent::WindowEvent {
        window: 1,
        event: TaoWindowEvent::CloseRequested,
    };
    let never = RunConfig {
        device_event_filter: DeviceEventFilter::Never,
    };
    assert!(!never.delivers(&device, true));
    assert!(!never.delivers(&device, false));
    assert!(never.delivers(&window, false));
    assert!(never.delivers(&NativeEvent::MainEventsCleared, false));
    assert!(never.delivers(&NativeEvent::LoopDestroyed, false));

    let unfocused = RunConfig::default();
    assert!(unfocused.delivers(&device, true));
    assert!(!unfocused.delivers(&device, false));
    assert!(unfocused.delivers(&window, false));

    let always = RunConfig {
        device_event_filter: DeviceEventFilter::Always,
    };
    assert!(always.delivers(&device, false));
}

#[test]
fn slot_is_empty_until_bound_and_after_clear() {
    let mut slot = TargetSlot::new();
    assert!(!slot.is_bound());
    assert_eq!(slot.with_target(|target| target), Err(TaoError::NotBound));
    slot.set(0x1000);
    assert!(slot.is_bound());
    assert_eq!(slot.with_target(|target| target), Ok(0x1000));
    slot.set(0x2000);
    assert_eq!(slot.with_target(|target| target), Ok(0x2000));
    slot.clear();
    assert!(!slot.is_bound());
    assert_eq!(slot.with_target(|target| target), Err(TaoError::NotBound));
}

#[test]
fn with_target_runs_only_while_bound() {
    let mut slot = TargetSlot::new();
    let unbound: Result<u64, TaoError> = slot.with_target(|_| panic!("must not run"));
    assert_eq!(unbound, Err(TaoError::NotBound));
    slot.set(21);
    assert_eq!(slot.with_target(|target| target * 2), Ok(42));
    slot.clear();
    let again: Result<u64, TaoError> = slot.with_target(|_| panic!("must not run"));
    assert_eq!(again, Err(TaoError::NotBound));
}

#[test]
fn slots_of_two_threads_do_not_see_each_other() {
    let mut pump = TargetSlot::new();
    let background = TargetSlot::new();
    pump.set(5);
    assert_eq!(pump.with_target(|target| target), Ok(5));
    assert_eq!(background.with_target(|target| target), Err(TaoError::NotBound));
}

#[test]
fn create_window_needs_a_bound_context() {
    let mut app = App::new(Platform::Linux);
    let slot = TargetSlot::new();
    let result = app.create_window(&slot, |_| panic!("must not run"));
    assert_eq!(result.err(), Some(TaoError::NotBound));
    assert_eq!(app.map_window_id(900), 1);
}

#[test]
fn create_window_gives_the_window_a_stable_id() {
    let mut app = App::new(Platform::Linux);
    let mut slot = TargetSlot::new();
    slot.set(77);
    let first = app
        .create_window(&slot, |target| {
            assert_eq!(target, 77);
            Ok(native_window(900))
        })
        .unwrap();
    let second = app.create_window(&slot, |_| Ok(native_window(901))).unwrap();
    assert_eq!(first.id(), 1);
    assert_eq!(second.id(), 2);
    assert_eq!(app.map_window_id(900), 1);
    assert_eq!(app.map_window_id(901), 2);
}

#[test]
fn create_window_reuses_the_id_of_a_window_seen_in_an_event() {
    let mut app = App::new(Platform::Linux);
    let mut slot = TargetSlot::new();
    slot.set(1);
    assert_eq!(app.map_window_id(55), 1);
    let window = app.create_window(&slot, |_| Ok(native_window(55))).unwrap();
    assert_eq!(window.id(), 1);
}

#[test]
fn create_window_passes_the_engine_refusal_on() {
    let mut app = App::new(Platform::Linux);
    let mut slot = TargetSlot::new();
    slot.set(77);
    let result = app.create_window(&slot, |_| Err(String::from("min size above max size")));
    assert_eq!(
        result.err(),
        Some(TaoError::Message {
            details: String::from("min size above max size")
        })
    );
    assert_eq!(app.map_window_id(900), 1);
}

#[test]
fn window_created_maps_both_outcomes() {
    let mut app = App::new(Platform::Windows);
    let mut handles = PlatformHandles::none();
    handles.hwnd = Some(0xBEEF);
    let window = app
        .window_created(Ok(NativeWindow {
            native_id: 3,
            handles,
        }))
        .unwrap();
    assert_eq!(window.id(), 1);
    assert_eq!(window.hwnd_handle(), Ok(0xBEEF));
    let refused = app.window_created(Err(String::from("out of handles")));
    assert_eq!(
        refused.err(),
        Some(TaoError::Message {
            details: String::from("out of handles")
        })
    );
}

#[test]
fn monitor_queries_need_a_bound_context() {
    let app = App::new(Platform::Linux);
    let mut slot = TargetSlot::new();
    let unbound: Result<Vec<String>, TaoError> =
        app.available_monitors(&slot, |_| panic!("must not run"));
    assert_eq!(unbound, Err(TaoError::NotBound));
    let primary: Result<Option<String>, TaoError> =
        app.primary_monitor(&slot, |_| panic!("must not run"));
    assert_eq!(primary, Err(TaoError::NotBound));

    slot.set(8);
    let monitors = app.available_monitors(&slot, |target| {
        assert_eq!(target, 8);
        vec![String::from("left"), String::from("right")]
    });
    assert_eq!(monitors, Ok(vec![String::from("left"), String::from("right")]));
    let primary = app.primary_monitor(&slot, |_| Some(String::from("left")));
    assert_eq!(primary, Ok(Some(String::from("left"))));
    let none: Result<Option<String>, TaoError> = app.primary_monitor(&slot, |_| None);
    assert_eq!(none, Ok(None));
}
