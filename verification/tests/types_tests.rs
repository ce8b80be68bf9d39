use taokt::{
    ControlFlow, CursorIcon, DeviceEventFilter, ElementState, F32Bits, F64Bits, LogicalSize,
    ModifiersState, MouseButton, MouseScrollDelta, PhysicalPositionF64, PhysicalPositionI32,
    PhysicalSizeU32, ProgressBarState, ProgressState, Theme,
};

fn bits64(value: f64) -> F64Bits {
    F64Bits { bits: value.to_bits() }
}

fn bits32(value: f32) -> F32Bits {
    F32Bits { bits: value.to_bits() }
}

#[test]
fn test_logical_size_creation() {
    let size = LogicalSize {
        width: bits64(800.0),
        height: bits64(600.0),
    };
    assert_eq!(f64::from_bits(size.width.bits), 800.0);
    assert_eq!(f64::from_bits(size.height.bits), 600.0);
}

#[test]
fn test_physical_size_u32_creation() {
    let size = PhysicalSizeU32 {
        width: 1920,
        height: 1080,
    };
    assert_eq!(size.width, 1920);
    assert_eq!(size.height, 1080);
}

#[test]
fn test_physical_position_i32_creation() {
    let pos = PhysicalPositionI32 { x: 100, y: 200 };
    assert_eq!(pos.x, 100);
    assert_eq!(pos.y, 200);
}

#[test]
fn test_physical_position_f64_creation() {
    let pos = PhysicalPositionF64 {
        x: bits64(100.5),
        y: bits64(200.5),
    };
    assert_eq!(f64::from_bits(pos.x.bits), 100.5);
    assert_eq!(f64::from_bits(pos.y.bits), 200.5);
}

#[test]
fn test_modifiers_state_default() {
    let mods = ModifiersState {
        shift: false,
        control: false,
        alt: false,
        super_key: false,
    };
    assert!(!mods.shift);
    assert!(!mods.control);
    assert!(!mods.alt);
    assert!(!mods.super_key);
}

#[test]
fn test_modifiers_state_with_modifiers() {
    let mods = ModifiersState {
        shift: true,
        control: true,
        alt: false,
        super_key: true,
    };
    assert!(mods.shift);
    assert!(mods.control);
    assert!(!mods.alt);
    assert!(mods.super_key);
}

#[test]
fn test_control_flow_variants() {
    let keep = ControlFlow::Keep;
    let wait = ControlFlow::Wait;
    let poll = ControlFlow::Poll;
    let exit = ControlFlow::Exit;

    assert!(matches!(keep, ControlFlow::Keep));
    assert!(matches!(wait, ControlFlow::Wait));
    assert!(matches!(poll, ControlFlow::Poll));
    assert!(matches!(exit, ControlFlow::Exit));
}

#[test]
fn test_theme_variants() {
    let light = Theme::Light;
    let dark = Theme::Dark;

    assert!(matches!(light, Theme::Light));
    assert!(matches!(dark, Theme::Dark));
}

#[test]
fn test_cursor_icon_variants() {
    let icons = [
        CursorIcon::Default,
        CursorIcon::Crosshair,
        CursorIcon::Hand,
        CursorIcon::Arrow,
        CursorIcon::Move,
        CursorIcon::Text,
        CursorIcon::Wait,
        CursorIcon::Help,
        CursorIcon::Progress,
        CursorIcon::NotAllowed,
    ];

    for icon in icons {
        // Just ensure we can create and match all variants
        let _ = match icon {
            CursorIcon::Default => "default",
            CursorIcon::Crosshair => "crosshair",
            CursorIcon::Hand => "hand",
            CursorIcon::Arrow => "arrow",
            CursorIcon::Move => "move",
            CursorIcon::Text => "text",
            CursorIcon::Wait => "wait",
            CursorIcon::Help => "help",
            CursorIcon::Progress => "progress",
            CursorIcon::NotAllowed => "not-allowed",
            _ => "other",
        };
    }
}

#[test]
fn test_mouse_button_variants() {
    let left = MouseButton::Left;
    let right = MouseButton::Right;
    let middle = MouseButton::Middle;
    let other = MouseButton::Other { value: 4 };

    assert!(matches!(left, MouseButton::Left));
    assert!(matches!(right, MouseButton::Right));
    assert!(matches!(middle, MouseButton::Middle));
    assert!(matches!(other, MouseButton::Other { value: 4 }));
}

#[test]
fn test_mouse_scroll_delta_variants() {
    let line_delta = MouseScrollDelta::LineDelta {
        x: bits32(1.0),
        y: bits32(2.0),
    };
    let pixel_delta = MouseScrollDelta::PixelDelta {
        x: bits64(10.0),
        y: bits64(20.0),
    };

    match line_delta {
        MouseScrollDelta::LineDelta { x, y } => {
            assert_eq!(f32::from_bits(x.bits), 1.0);
            assert_eq!(f32::from_bits(y.bits), 2.0);
        }
        _ => panic!("Expected LineDelta"),
    }

    match pixel_delta {
        MouseScrollDelta::PixelDelta { x, y } => {
            assert_eq!(f64::from_bits(x.bits), 10.0);
            assert_eq!(f64::from_bits(y.bits), 20.0);
        }
        _ => panic!("Expected PixelDelta"),
    }
}

#[test]
fn element_states_differ() {
    assert_ne!(ElementState::Pressed, ElementState::Released);
}

#[test]
fn device_event_filter_always_delivers() {
    assert!(DeviceEventFilter::Always.delivers(true));
    assert!(DeviceEventFilter::Always.delivers(false));
}

#[test]
fn device_event_filter_unfocused_delivers_only_with_focus() {
    assert!(DeviceEventFilter::Unfocused.delivers(true));
    assert!(!DeviceEventFilter::Unfocused.delivers(false));
}

#[test]
fn device_event_filter_never_delivers() {
    assert!(!DeviceEventFilter::Never.delivers(true));
    assert!(!DeviceEventFilter::Never.delivers(false));
}

#[test]
fn progress_bar_state_holds_its_fields() {
    let state = ProgressBarState {
        progress: Some(40),
        state: Some(ProgressState::Normal),
        desktop_filename: Some(String::from("app.desktop")),
    };
    assert_eq!(state.progress, Some(40));
    assert_eq!(state.state, Some(ProgressState::Normal));
    assert_eq!(state.desktop_filename.as_deref(), Some("app.desktop"));
    assert_ne!(ProgressState::Hidden, ProgressState::Error);
}
