//! The loop driver: what is decided around every event that the native
//! engine pumps, and the schedule of the cooperative run mode.
//!
//! The engine's pump and the handler are not part of the library. The
//! caller performs them and tells the driver what came of them.

use vstd::prelude::*;
use crate::app::{App, RunConfig};
use crate::error::TaoError;
use crate::events::{NativeEvent, TaoEvent};
use crate::platform::Platform;
use crate::target::TargetSlot;
use crate::types::ControlFlow;

verus! {

/// How the native loop waits for its next event. Times are in milliseconds
/// on the caller's clock.
#[derive(Debug, Clone, Copy, PartialEq, Eq, Structural)]
pub enum LoopControl {
    /// Start the next iteration at once.
    Poll,
    /// Sleep until an event arrives.
    Wait,
    /// Sleep until an event arrives or the clock reaches `deadline_ms`.
    WaitUntil { deadline_ms: u64 },
    /// Stop the loop.
    Exit,
}

impl ControlFlow {
    /// The time at which a wait of `duration_ms` that starts at `now_ms`
    /// is over; the largest time where the sum is beyond it.
    pub open spec fn deadline(now_ms: u64, duration_ms: u64) -> u64 {
        if now_ms + duration_ms > u64::MAX {
            u64::MAX
        } else {
            (now_ms + duration_ms) as u64
        }
    }

    /// What the directive asks of the native loop at time `now_ms`;
    /// `None` where it asks for no change.
    pub open spec fn request(self, now_ms: u64) -> Option<LoopControl> {
        match self {
            ControlFlow::Keep => None,
            ControlFlow::Wait => Some(LoopControl::Wait),
            ControlFlow::Poll => Some(LoopControl::Poll),
            ControlFlow::Exit => Some(LoopControl::Exit),
            ControlFlow::WaitUntil { duration_ms } => Some(
                LoopControl::WaitUntil { deadline_ms: Self::deadline(now_ms, duration_ms) },
            ),
        }
    }

    /// The control state of the loop after the directive was applied to `current`.
    pub open spec fn applied(self, current: LoopControl, now_ms: u64) -> LoopControl {
        match self.request(now_ms) {
            Some(control) => control,
            None => current,
        }
    }

    /// Turns the directive into a request to the native loop. A wait for a
    /// duration becomes a wait until `now_ms` plus that duration.
    pub fn to_native(self, now_ms: u64) -> (request: Option<LoopControl>)
        ensures
            request == self.request(now_ms),
    {
        match self {
            ControlFlow::Keep => None,
            ControlFlow::Wait => Some(LoopControl::Wait),
            ControlFlow::Poll => Some(LoopControl::Poll),
            ControlFlow::Exit => Some(LoopControl::Exit),
            ControlFlow::WaitUntil { duration_ms } => Some(
                LoopControl::WaitUntil { deadline_ms: now_ms.saturating_add(duration_ms) },
            ),
        }
    }
}

/// Where a run of the loop stands.
#[derive(Debug, Clone, Copy, PartialEq, Eq, Structural)]
pub enum DriverPhase {
    /// No event was delivered yet.
    Created,
    /// The context is bound and the handler has the event.
    Dispatching,
    /// The handler's directive was applied; the context is still bound.
    Applying,
    /// Between two events.
    Idle,
    /// The loop delivered its last event. Nothing is dispatched any more.
    Destroyed,
}

/// The state of a run of the loop.
#[derive(Debug, Clone, Copy, PartialEq, Eq, Structural)]
pub struct DriverState {
    pub config: RunConfig,
    pub phase: DriverPhase,
    /// The control state that the native loop was last given.
    pub control: LoopControl,
    /// Whether the application has the input focus.
    pub focused: bool,
    /// Whether the event in hand is the loop's last.
    pub closing: bool,
}

impl DriverState {
    pub open spec fn initial(config: RunConfig) -> DriverState {
        DriverState {
            config,
            phase: DriverPhase::Created,
            control: LoopControl::Poll,
            focused: false,
            closing: false,
        }
    }

    /// Whether no event is in hand and the loop has not ended.
    pub open spec fn ready(self) -> bool {
        self.phase is Created || self.phase is Idle
    }

    /// Whether an event is in hand.
    pub open spec fn busy(self) -> bool {
        self.phase is Dispatching || self.phase is Applying
    }

    /// Whether `event` is handed to the handler.
    pub open spec fn accepts(self, event: NativeEvent) -> bool {
        self.ready() && self.config.admits(event, self.focused)
    }

    /// The state after `event` was handed to the handler.
    pub open spec fn begun(self, event: NativeEvent) -> DriverState {
        DriverState { phase: DriverPhase::Dispatching, closing: event is LoopDestroyed, ..self }
    }

    /// The state after the handler's directive was applied at time `now_ms`.
    pub open spec fn directed(self, directive: ControlFlow, now_ms: u64) -> DriverState {
        if self.phase is Dispatching {
            DriverState {
                phase: DriverPhase::Applying,
                control: directive.applied(self.control, now_ms),
                ..self
            }
        } else {
            self
        }
    }

    /// The state after the event in hand was let go.
    pub open spec fn released(self) -> DriverState {
        if self.busy() {
            DriverState {
                phase: if self.closing {
                    DriverPhase::Destroyed
                } else {
                    DriverPhase::Idle
                },
                closing: false,
                ..self
            }
        } else {
            self
        }
    }
}

impl DriverState {
    /// Law of the pipeline: an event that is accepted by a run at rest
    /// leaves the run at rest again, or at its end if the event was the
    /// loop's last, whether or not the handler got as far as a directive;
    /// and the control state is the old one with the directive applied.
    pub proof fn law_pipeline_comes_to_rest(
        self,
        event: NativeEvent,
        directive: ControlFlow,
        now_ms: u64,
    )
        requires
            self.accepts(event),
        ensures
            self.begun(event).busy(),
            self.begun(event).directed(directive, now_ms).released() == (DriverState {
                phase: if event is LoopDestroyed {
                    DriverPhase::Destroyed
                } else {
                    DriverPhase::Idle
                },
                control: directive.applied(self.control, now_ms),
                closing: false,
                ..self
            }),
            self.begun(event).released() == (DriverState {
                phase: if event is LoopDestroyed {
                    DriverPhase::Destroyed
                } else {
                    DriverPhase::Idle
                },
                closing: false,
                ..self
            }),
    {
    }

    /// Law of the end: once the loop has delivered its last event, no event
    /// is accepted and no step changes the state.
    pub proof fn law_destroyed_is_final(
        self,
        event: NativeEvent,
        directive: ControlFlow,
        now_ms: u64,
    )
        requires
            self.phase is Destroyed,
        ensures
            !self.accepts(event),
            self.directed(directive, now_ms) == self,
            self.released() == self,
    {
    }

    /// Law of the single event in hand: while the handler has an event, no
    /// other event is accepted.
    pub proof fn law_one_event_at_a_time(self, event: NativeEvent)
        requires
            self.busy(),
        ensures
            !self.accepts(event),
    {
    }
}

/// Drives one run of the loop through the pipeline of every event: bind
/// the context, translate the event, hand it to the handler, apply the
/// handler's directive, unbind the context.
#[derive(Debug)]
pub struct LoopDriver {
    state: DriverState,
}

impl View for LoopDriver {
    type V = DriverState;

    closed spec fn view(&self) -> DriverState {
        self.state
    }
}

impl LoopDriver {
    /// A driver for a run that has not delivered anything yet. The native
    /// loop starts out polling.
    pub fn new(config: RunConfig) -> (driver: LoopDriver)
        ensures
            driver@ == DriverState::initial(config),
    {
        LoopDriver {
            state: DriverState {
                config,
                phase: DriverPhase::Created,
                control: LoopControl::Poll,
                focused: false,
                closing: false,
            },
        }
    }

    /// Where the run stands.
    pub fn phase(&self) -> (phase: DriverPhase)
        ensures
            phase == self@.phase,
    {
        self.state.phase
    }

    /// The control state that the native loop was last given.
    pub fn control(&self) -> (control: LoopControl)
        ensures
            control == self@.control,
    {
        self.state.control
    }

    /// Records that the application gained or lost the input focus.
    pub fn note_focus(&mut self, focused: bool)
        ensures
            final(self)@ == (DriverState { focused, ..old(self)@ }),
    {
        self.state.focused = focused;
    }

    /// Takes an event from the native loop. If it is to be delivered, the
    /// context `target` is bound, and the result is the event for the
    /// handler. An event is not delivered once the loop has delivered its
    /// last event, while another event is in hand, and where the run
    /// configuration holds it back: then nothing changes.
    pub fn begin(
        &mut self,
        app: &mut App,
        slot: &mut TargetSlot,
        target: u64,
        event: NativeEvent,
    ) -> (delivered: Option<TaoEvent>)
        ensures
            final(app).platform() == old(app).platform(),
            old(self)@.accepts(event) ==> {
                &&& final(self)@ == old(self)@.begun(event)
                &&& final(slot).target() == Some(target)
                &&& match event.window() {
                    Some(window) => {
                        &&& delivered == Some(
                            event.translated(old(app).registry().resolved(window)),
                        )
                        &&& final(app).registry() == old(app).registry().after(window)
                    },
                    None => {
                        &&& delivered == Some(event.translated(0))
                        &&& final(app).registry() == old(app).registry()
                    },
                }
            },
            !old(self)@.accepts(event) ==> {
                &&& delivered is None
                &&& final(self)@ == old(self)@
                &&& final(slot).target() == old(slot).target()
                &&& final(app).registry() == old(app).registry()
            },
    {
        let ready = match self.state.phase {
            DriverPhase::Created | DriverPhase::Idle => true,
            _ => false,
        };
        if !ready || !self.state.config.delivers(&event, self.state.focused) {
            return None;
        }
        slot.set(target);
        self.state.phase = DriverPhase::Dispatching;
        self.state.closing = event.is_loop_destroyed();
        Some(app.translate(event))
    }

    /// Applies the directive that the handler returned for the event in
    /// hand, at time `now_ms`, and returns the control state for the native
    /// loop. `Keep` leaves the control state as it was. With no event in
    /// hand, or a directive already applied, nothing changes.
    pub fn apply(&mut self, directive: ControlFlow, now_ms: u64) -> (control: LoopControl)
        ensures
            final(self)@ == old(self)@.directed(directive, now_ms),
            control == final(self)@.control,
    {
        match self.state.phase {
            DriverPhase::Dispatching => {
                match directive.to_native(now_ms) {
                    Some(control) => {
                        self.state.control = control;
                    },
                    None => {},
                }
                self.state.phase = DriverPhase::Applying;
            },
            _ => {},
        }
        self.state.control
    }

    /// Lets go of the event in hand: the slot is emptied, whatever state
    /// the handler left behind, and the run is between events again, or at
    /// its end if the event was the loop's last.
    pub fn unbind(&mut self, slot: &mut TargetSlot)
        ensures
            final(slot).target() is None,
            final(self)@ == old(self)@.released(),
    {
        slot.clear();
        match self.state.phase {
            DriverPhase::Dispatching | DriverPhase::Applying => {
                self.state.phase = if self.state.closing {
                    DriverPhase::Destroyed
                } else {
                    DriverPhase::Idle
                };
                self.state.closing = false;
            },
            _ => {},
        }
    }
}

/// What the cooperative run mode does next.
#[derive(Debug, Clone, Copy, PartialEq, Eq, Structural)]
pub enum CooperativeStep {
    /// Ask the handler whether to quit.
    CheckQuit,
    /// Pump one batch of native events through the pipeline.
    PumpBatch,
    /// Let the handler render.
    Render,
    /// Give control back to the caller.
    Return,
}

impl CooperativeStep {
    /// The step that follows this one. `should_quit` is the handler's
    /// answer; only `CheckQuit` reads it.
    pub open spec fn successor(self, should_quit: bool) -> CooperativeStep {
        match self {
            CooperativeStep::CheckQuit => if should_quit {
                CooperativeStep::Return
            } else {
                CooperativeStep::PumpBatch
            },
            CooperativeStep::PumpBatch => CooperativeStep::Render,
            CooperativeStep::Render => CooperativeStep::CheckQuit,
            CooperativeStep::Return => CooperativeStep::Return,
        }
    }

    /// How far a step is from the next check.
    pub open spec fn rank(self) -> nat {
        match self {
            CooperativeStep::PumpBatch => 2,
            CooperativeStep::Render => 1,
            _ => 0,
        }
    }

    /// The steps that a run performs from this step on, when the handler
    /// answers the checks with `answers`, one after the other. The run
    /// stops at `Return`, or at the check for which no answer is left.
    pub open spec fn schedule(self, answers: Seq<bool>) -> Seq<CooperativeStep>
        decreases answers.len(), self.rank(),
    {
        match self {
            CooperativeStep::Return => seq![CooperativeStep::Return],
            CooperativeStep::CheckQuit => if answers.len() == 0 {
                seq![CooperativeStep::CheckQuit]
            } else {
                seq![CooperativeStep::CheckQuit] + self.successor(answers[0]).schedule(
                    answers.drop_first(),
                )
            },
            CooperativeStep::PumpBatch => seq![CooperativeStep::PumpBatch]
                + CooperativeStep::Render.schedule(answers),
            CooperativeStep::Render => seq![CooperativeStep::Render]
                + CooperativeStep::CheckQuit.schedule(answers),
        }
    }

    /// `count` rounds of check, batch and render.
    pub open spec fn rounds(count: nat) -> Seq<CooperativeStep>
        decreases count,
    {
        if count == 0 {
            Seq::empty()
        } else {
            seq![CooperativeStep::CheckQuit, CooperativeStep::PumpBatch, CooperativeStep::Render]
                + Self::rounds((count - 1) as nat)
        }
    }

    /// `count` times the answer "do not quit", then "quit", then `rest`.
    pub open spec fn quit_after(count: nat, rest: Seq<bool>) -> Seq<bool> {
        Seq::new(count, |i: int| false).push(true) + rest
    }

    /// Law of the cooperative mode: the handler is asked before every
    /// batch, every batch that was entered is followed by exactly one
    /// render, and the answer "quit" ends the run at once. So a handler
    /// that says "quit" at the first check sees no batch and no render.
    pub proof fn law_cooperative_schedule(count: nat, rest: Seq<bool>)
        ensures
            CooperativeStep::CheckQuit.schedule(Self::quit_after(count, rest)) == Self::rounds(
                count,
            ) + seq![CooperativeStep::CheckQuit, CooperativeStep::Return],
        decreases count,
    {
        let answers = Self::quit_after(count, rest);
        let tail = seq![CooperativeStep::CheckQuit, CooperativeStep::Return];
        if count == 0 {
            assert(answers[0]);
            assert(CooperativeStep::Return.schedule(answers.drop_first())
                == seq![CooperativeStep::Return]);
            assert(CooperativeStep::CheckQuit.schedule(answers) =~= tail);
            assert(Self::rounds(0) + tail =~= tail);
        } else {
            let shorter = Self::quit_after((count - 1) as nat, rest);
            assert(!answers[0]);
            assert(answers.drop_first() =~= shorter);
            Self::law_cooperative_schedule((count - 1) as nat, rest);
            assert(CooperativeStep::Render.schedule(shorter) == seq![CooperativeStep::Render]
                + CooperativeStep::CheckQuit.schedule(shorter));
            assert(CooperativeStep::PumpBatch.schedule(shorter) == seq![CooperativeStep::PumpBatch]
                + CooperativeStep::Render.schedule(shorter));
            assert(CooperativeStep::CheckQuit.schedule(answers) == seq![CooperativeStep::CheckQuit]
                + CooperativeStep::PumpBatch.schedule(shorter));
            assert(CooperativeStep::CheckQuit.schedule(answers) =~= Self::rounds(count) + tail);
        }
    }
}

/// The schedule of the cooperative run mode: check, batch, render, and
/// again, until the handler says quit.
#[derive(Debug)]
pub struct CooperativeLoop {
    step: CooperativeStep,
}

impl CooperativeLoop {
    /// The step that is due.
    pub closed spec fn due(&self) -> CooperativeStep {
        self.step
    }

    /// Starts a cooperative run with the check of the handler; fails with
    /// `Unsupported` on a platform whose engine cannot return from its pump.
    pub fn start(platform: Platform) -> (result: Result<CooperativeLoop, TaoError>)
        ensures
            match result {
                Ok(run) => platform.can_return_from_pump() && run.due()
                    == CooperativeStep::CheckQuit,
                Err(error) => !platform.can_return_from_pump() && error == TaoError::Unsupported,
            },
    {
        match platform {
            Platform::Ios => Err(TaoError::Unsupported),
            _ => Ok(CooperativeLoop { step: CooperativeStep::CheckQuit }),
        }
    }

    /// The step to perform now.
    pub fn next_step(&self) -> (step: CooperativeStep)
        ensures
            step == self.due(),
    {
        self.step
    }

    /// Records that the step that was due has been performed.
    /// `should_quit` is the handler's answer to a check; after any other
    /// step it is ignored.
    pub fn advance(&mut self, should_quit: bool)
        ensures
            final(self).due() == old(self).due().successor(should_quit),
    {
        self.step = match self.step {
            CooperativeStep::CheckQuit => if should_quit {
                CooperativeStep::Return
            } else {
                CooperativeStep::PumpBatch
            },
            CooperativeStep::PumpBatch => CooperativeStep::Render,
            CooperativeStep::Render => CooperativeStep::CheckQuit,
            CooperativeStep::Return => CooperativeStep::Return,
        };
    }
}

} // verus!
