use std::cell::RefCell;
use std::sync::Mutex;

use taokt::{
    App, ControlFlow, CooperativeLoop, CooperativeStep, LoopControl, LoopDriver, NativeEvent,
    NativeWindow, Platform, PlatformHandles, RunConfig, TaoError, TaoEvent, TaoWindowEvent,
    TargetSlot, Window,
};

/// Lets go of the event in hand when the callback ends, however it ends.
struct Release<'a> {
    driver: &'a mut LoopDriver,
    slot: &'a RefCell<TargetSlot>,
}

impl Drop for Release<'_> {
    fn drop(&mut self) {
        self.driver.unbind(&mut self.slot.borrow_mut());
    }
}

/// One event through the whole pipeline, as an embedding performs it.
fn dispatch(
    driver: &mut LoopDriver,
    app: &Mutex<App>,
    slot: &RefCell<TargetSlot>,
    target: u64,
    now_ms: u64,
    event: NativeEvent,
    control: &mut LoopControl,
    handle: impl FnOnce(TaoEvent) -> ControlFlow,
) -> bool {
    let delivered = {
        let mut core = app.lock().unwrap();
        driver.begin(&mut core, &mut slot.borrow_mut(), target, event)
    };
    let Some(converted) = delivered else {
        return false;
    };
    let mut release = Release { driver, slot };
    let directive = handle(converted);
    let applied = release.driver.apply(directive, now_ms);
    if directive != ControlFlow::Keep {
        *control = applied;
    }
    true
}

fn create_window(app: &Mutex<App>, slot: &RefCell<TargetSlot>, native_id: u64) -> Result<Window, TaoError> {
    let slot = slot.borrow();
    let mut core = app.lock().unwrap();
    core.create_window(&slot, |_target| {
        Ok(NativeWindow {
            native_id,
            handles: PlatformHandles::none(),
        })
    })
}

#[test]
fn handler_creates_windows_only_inside_a_callback() {
    let app = Mutex::new(App::new(Platform::Linux));
    let slot = RefCell::new(TargetSlot::new());
    let mut driver = LoopDriver::new(RunConfig::default());
    let mut control = LoopControl::Poll;

    assert_eq!(create_window(&app, &slot, 10).err(), Some(TaoError::NotBound));

    let mut created = None;
    let delivered = dispatch(
        &mut driver,
        &app,
        &slot,
        0xC0DE,
        0,
        NativeEvent::NewEvents {
            cause: taokt::TaoStartCause::Init,
        },
        &mut control,
        |event| {
            assert_eq!(
                event,
                TaoEvent::NewEvents {
                    cause: taokt::TaoStartCause::Init
                }
            );
            created = Some(create_window(&app, &slot, 10));
            ControlFlow::Wait
        },
    );
    assert!(delivered);
    assert_eq!(created.unwrap().unwrap().id(), 1);
    assert_eq!(control, LoopControl::Wait);
    assert!(!slot.borrow().is_bound());

    assert_eq!(create_window(&app, &slot, 11).err(), Some(TaoError::NotBound));
}

#[test]
fn events_of_a_created_window_carry_its_stable_id() {
    let app = Mutex::new(App::new(Platform::Linux));
    let slot = RefCell::new(TargetSlot::new());
    let mut driver = LoopDriver::new(RunConfig::default());
    let mut control = LoopControl::Poll;
    let mut seen = Vec::new();

    dispatch(&mut driver, &app, &slot, 1, 0, NativeEvent::MainEventsCleared, &mut control, |_| {
        assert_eq!(create_window(&app, &slot, 700).unwrap().id(), 1);
        assert_eq!(create_window(&app, &slot, 800).unwrap().id(), 2);
        ControlFlow::Keep
    });
    for window in [800_u64, 700, 900, 800] {
        dispatch(
            &mut driver,
            &app,
            &slot,
            1,
            0,
            NativeEvent::WindowEvent {
                window,
                event: TaoWindowEvent::CloseRequested,
            },
            &mut control,
            |event| {
                seen.push(event);
                ControlFlow::Keep
            },
        );
    }
    let ids: Vec<u64> = seen
        .iter()
        .map(|event| match event {
            TaoEvent::WindowEvent { window_id, .. } => *window_id,
            _ => 0,
        })
        .collect();
    assert_eq!(ids, vec![2, 1, 3, 2]);
    assert_eq!(control, LoopControl::Poll);
}

#[test]
fn events_reach_the_handler_in_the_order_of_the_engine() {
    let app = Mutex::new(App::new(Platform::Linux));
    let slot = RefCell::new(TargetSlot::new());
    let mut driver = LoopDriver::new(RunConfig::default());
    let mut control = LoopControl::Poll;
    let mut seen = Vec::new();
    let pumped = vec![
        NativeEvent::NewEvents {
            cause: taokt::TaoStartCause::Poll,
        },
        NativeEvent::MainEventsCleared,
        NativeEvent::RedrawRequested { window: 5 },
        NativeEvent::RedrawEventsCleared,
        NativeEvent::LoopDestroyed,
        NativeEvent::MainEventsCleared,
    ];
    for event in pumped {
        dispatch(&mut driver, &app, &slot, 1, 0, event, &mut control, |event| {
            seen.push(event);
            ControlFlow::Keep
        });
    }
    assert_eq!(
        seen,
        vec![
            TaoEvent::NewEvents {
                cause: taokt::TaoStartCause::Poll
            },
            TaoEvent::MainEventsCleared,
            TaoEvent::RedrawRequested { window_id: 1 },
            TaoEvent::RedrawEventsCleared,
            TaoEvent::LoopDestroyed,
        ]
    );
}

#[test]
fn cooperative_run_interleaves_batches_and_renders() {
    let app = Mutex::new(App::new(Platform::Linux));
    let slot = RefCell::new(TargetSlot::new());
    let mut driver = LoopDriver::new(RunConfig::default());
    let mut control = LoopControl::Poll;
    let mut log = Vec::new();
    let mut frames = 0;

    let mut schedule = CooperativeLoop::start(Platform::Linux).unwrap();
    loop {
        match schedule.next_step() {
            CooperativeStep::CheckQuit => {
                log.push("check");
                schedule.advance(frames == 2);
            }
            CooperativeStep::PumpBatch => {
                dispatch(&mut driver, &app, &slot, 1, 0, NativeEvent::MainEventsCleared, &mut control, |_| {
                    log.push("event");
                    ControlFlow::Exit
                });
                schedule.advance(false);
            }
            CooperativeStep::Render => {
                log.push("render");
                frames += 1;
                schedule.advance(false);
            }
            CooperativeStep::Return => break,
        }
    }
    assert_eq!(
        log,
        vec!["check", "event", "render", "check", "event", "render", "check"]
    );
    assert_eq!(control, LoopControl::Exit);
}
