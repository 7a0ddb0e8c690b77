//! The control loop: capture, classify, decide, drive, rest, and on any
//! failure halt the wheels before leaving.
//!
//! The loop is a state machine. The program that owns the devices performs
//! each action it is handed and reports back what happened; every decision
//! is taken here.

use std::time::Duration;
use vstd::prelude::*;
use crate::color::Color;
use crate::convert::average_frame;
use crate::error::CoreError;
use crate::frame::{ColorMatrix, FrameGeometry};
use crate::palette::{nearest_index, ClosestColor, Palette, PaletteEntry};
use crate::robot::{
    move_commands,
    plan_steps,
    stop_commands,
    BusStep,
    Direction,
    Maneuver,
    Robot,
};

verus! {

/// Milliseconds to rest between two frames unless configured otherwise.
pub const DEFAULT_FRAME_INTERVAL_MS: u64 = 500;

/// Exit code of a normal shutdown.
pub const EXIT_OK: i32 = 0;

/// Exit code when a component could not be set up.
pub const EXIT_INIT_FAILURE: i32 = 1;

/// Exit code when the loop ended on a failure.
pub const EXIT_RUNTIME_FAILURE: i32 = 2;

/// What to do about a label.
#[derive(Clone, Copy, Debug, PartialEq, Eq)]
pub enum DriveAction {
    /// Halt the wheels.
    Stop,
    /// Drive in `direction` at `speed` for `duration`.
    Move { direction: Direction, speed: u8, duration: Duration },
}

/// The steps that carry out a drive action under a given pacing.
pub open spec fn action_steps(action: DriveAction, pacing: Option<Duration>) -> Seq<BusStep> {
    match action {
        DriveAction::Stop => plan_steps(stop_commands(), pacing, None),
        DriveAction::Move { direction, speed, duration } => plan_steps(
            move_commands(direction, speed),
            pacing,
            Some(duration),
        ),
    }
}

/// The table from labels to drive actions. Until an entry is set, its label
/// halts the robot.
#[derive(Clone, Copy, Debug)]
pub struct Policy {
    red: DriveAction,
    green: DriveAction,
    blue: DriveAction,
    no_color: DriveAction,
    orange: DriveAction,
    white: DriveAction,
}

impl Policy {
    /// The action the table holds for `label`.
    pub closed spec fn action(&self, label: ClosestColor) -> DriveAction {
        match label {
            ClosestColor::Red => self.red,
            ClosestColor::Green => self.green,
            ClosestColor::Blue => self.blue,
            ClosestColor::NoColor => self.no_color,
            ClosestColor::Orange => self.orange,
            ClosestColor::White => self.white,
        }
    }

    /// The table that halts on every label.
    pub fn new() -> (policy: Policy)
        ensures
            forall|label: ClosestColor| policy.action(label) == DriveAction::Stop,
    {
        Policy {
            red: DriveAction::Stop,
            green: DriveAction::Stop,
            blue: DriveAction::Stop,
            no_color: DriveAction::Stop,
            orange: DriveAction::Stop,
            white: DriveAction::Stop,
        }
    }

    /// Sets the action for one label and leaves the others as they are.
    pub fn set(&mut self, label: ClosestColor, action: DriveAction)
        ensures
            final(self).action(label) == action,
            forall|other: ClosestColor|
                other != label ==> final(self).action(other) == old(self).action(other),
    {
        match label {
            ClosestColor::Red => {
                self.red = action;
            },
            ClosestColor::Green => {
                self.green = action;
            },
            ClosestColor::Blue => {
                self.blue = action;
            },
            ClosestColor::NoColor => {
                self.no_color = action;
            },
            ClosestColor::Orange => {
                self.orange = action;
            },
            ClosestColor::White => {
                self.white = action;
            },
        }
    }

    /// Looks up the action for `label`.
    pub fn action_for(&self, label: ClosestColor) -> (action: DriveAction)
        ensures
            action == self.action(label),
    {
        match label {
            ClosestColor::Red => self.red,
            ClosestColor::Green => self.green,
            ClosestColor::Blue => self.blue,
            ClosestColor::NoColor => self.no_color,
            ClosestColor::Orange => self.orange,
            ClosestColor::White => self.white,
        }
    }
}

/// Where the loop stands.
#[derive(Clone, Copy, Debug, PartialEq, Eq, Structural)]
pub enum Phase {
    /// Set up, not yet started.
    Ready,
    /// Waiting for a frame.
    Capturing,
    /// Waiting for a maneuver to end.
    Driving,
    /// Waiting out the interval between frames.
    Resting,
    /// The halt before leaving has been handed out.
    Stopping,
    /// Over.
    Exited,
}

/// What the program reports to the loop.
#[derive(Clone, Copy, Debug, PartialEq, Eq, Structural)]
pub enum LoopEvent {
    /// The devices are set up; the loop may begin.
    Started,
    /// A frame was captured; this is its average colour.
    Averaged(Color),
    /// The maneuver handed out last was carried out to its end.
    Moved,
    /// The rest handed out last has elapsed.
    Rested,
    /// Capturing, decoding or a bus write failed.
    Faulted(CoreError),
    /// The program was asked to terminate.
    Shutdown,
}

/// What the loop asks the program to do next.
#[derive(Debug)]
pub enum LoopAction {
    /// Capture a frame and report its average colour.
    Capture,
    /// Carry out this maneuver and report how it ended.
    Drive(Maneuver),
    /// Sleep this long, then report.
    Rest(Duration),
    /// Release the devices and exit with this code.
    Exit(i32),
}

/// What an action amounts to, a maneuver taken by its plan.
pub enum Request {
    Capture,
    Drive(Seq<BusStep>),
    Rest(Duration),
    Exit(int),
}

impl LoopAction {
    /// The request an action stands for.
    pub open spec fn request(self) -> Request {
        match self {
            LoopAction::Capture => Request::Capture,
            LoopAction::Drive(m) => Request::Drive(m.plan()),
            LoopAction::Rest(d) => Request::Rest(d),
            LoopAction::Exit(code) => Request::Exit(code as int),
        }
    }

    /// A maneuver is handed out untouched: nothing issued, nothing failed.
    pub open spec fn fresh(self) -> bool {
        self matches LoopAction::Drive(m) ==> m.issued() == 0 && !m.aborted()
    }
}

/// Everything the loop is configured with.
#[derive(Debug)]
pub struct LoopConfig {
    pub palette: Palette,
    pub policy: Policy,
    pub robot: Robot,
    pub geometry: FrameGeometry,
    pub matrix: ColorMatrix,
    pub interval: Duration,
}

/// The loop's state as contracts see it.
pub struct LoopState {
    pub phase: Phase,
    pub exit_code: int,
    pub fault: Option<CoreError>,
    pub sighting: Option<(Color, ClosestColor)>,
}

/// The settings that shape the loop's decisions, as contracts see them.
pub struct LoopSettings {
    pub palette: Seq<PaletteEntry>,
    pub policy: Policy,
    pub pacing: Option<Duration>,
    pub geometry: FrameGeometry,
    pub matrix: ColorMatrix,
    pub interval: Duration,
}

/// The label a colour gets and the action the policy holds for it.
pub open spec fn decision(settings: LoopSettings, c: Color) -> (ClosestColor, DriveAction) {
    let label = settings.palette[nearest_index(settings.palette, c)].label;
    (label, settings.policy.action(label))
}

/// The state that halts the wheels before leaving with `exit_code`.
pub open spec fn halting(state: LoopState, exit_code: int, fault: Option<CoreError>) -> LoopState {
    LoopState { phase: Phase::Stopping, exit_code, fault, sighting: state.sighting }
}

/// The loop's transition: the state after `event` and the request made.
///
/// Once the halt before leaving has been handed out, whatever is reported
/// next ends the loop. Before that, a shutdown or a fault from any phase
/// turns into that halt, as does a report that does not fit the phase.
/// Otherwise the loop goes round: capture, drive what the policy holds for
/// the frame's label, rest, capture again.
pub open spec fn transition(settings: LoopSettings, state: LoopState, event: LoopEvent) -> (
    LoopState,
    Request,
) {
    let halt = Request::Drive(plan_steps(stop_commands(), settings.pacing, None));
    match state.phase {
        Phase::Exited => (state, Request::Exit(state.exit_code)),
        Phase::Stopping => (
            LoopState { phase: Phase::Exited, ..state },
            Request::Exit(state.exit_code),
        ),
        _ => match event {
            LoopEvent::Shutdown => (halting(state, EXIT_OK as int, state.fault), halt),
            LoopEvent::Faulted(e) => (halting(state, EXIT_RUNTIME_FAILURE as int, Some(e)), halt),
            LoopEvent::Started if state.phase is Ready => (
                LoopState { phase: Phase::Capturing, ..state },
                Request::Capture,
            ),
            LoopEvent::Averaged(c) if state.phase is Capturing => {
                let (label, action) = decision(settings, c);
                (
                    LoopState { phase: Phase::Driving, sighting: Some((c, label)), ..state },
                    Request::Drive(action_steps(action, settings.pacing)),
                )
            },
            LoopEvent::Moved if state.phase is Driving => (
                LoopState { phase: Phase::Resting, ..state },
                Request::Rest(settings.interval),
            ),
            LoopEvent::Rested if state.phase is Resting => (
                LoopState { phase: Phase::Capturing, ..state },
                Request::Capture,
            ),
            _ => (halting(state, EXIT_RUNTIME_FAILURE as int, state.fault), halt),
        },
    }
}

/// The perceive/act loop.
#[derive(Debug)]
pub struct ControlLoop {
    palette: Palette,
    policy: Policy,
    robot: Robot,
    geometry: FrameGeometry,
    matrix: ColorMatrix,
    interval: Duration,
    phase: Phase,
    exit_code: i32,
    fault: Option<CoreError>,
    sighting: Option<(Color, ClosestColor)>,
}

impl ControlLoop {
    #[verifier::type_invariant]
    spec fn inv(self) -> bool {
        self.geometry.wf()
    }

    /// The loop's settings.
    pub closed spec fn settings(&self) -> LoopSettings {
        LoopSettings {
            palette: self.palette@,
            policy: self.policy,
            pacing: self.robot.pacing(),
            geometry: self.geometry,
            matrix: self.matrix,
            interval: self.interval,
        }
    }

    /// The loop's state.
    pub closed spec fn state(&self) -> LoopState {
        LoopState {
            phase: self.phase,
            exit_code: self.exit_code as int,
            fault: self.fault,
            sighting: self.sighting,
        }
    }

    /// Sets the loop up. A geometry that no frame can have is refused.
    pub fn new(config: LoopConfig) -> (res: Result<ControlLoop, CoreError>)
        ensures
            res is Ok <==> config.geometry.wf(),
            res is Err ==> res == Err::<ControlLoop, CoreError>(CoreError::ConfigInvalid),
            res matches Ok(control) ==> {
                &&& control.settings() == (LoopSettings {
                    palette: config.palette@,
                    policy: config.policy,
                    pacing: config.robot.pacing(),
                    geometry: config.geometry,
                    matrix: config.matrix,
                    interval: config.interval,
                })
                &&& control.state() == (LoopState {
                    phase: Phase::Ready,
                    exit_code: EXIT_OK as int,
                    fault: None,
                    sighting: None,
                })
            },
    {
        if !config.geometry.is_valid() {
            return Err(CoreError::ConfigInvalid);
        }
        Ok(
            ControlLoop {
                palette: config.palette,
                policy: config.policy,
                robot: config.robot,
                geometry: config.geometry,
                matrix: config.matrix,
                interval: config.interval,
                phase: Phase::Ready,
                exit_code: EXIT_OK,
                fault: None,
                sighting: None,
            },
        )
    }

    /// Where the loop stands.
    pub fn phase(&self) -> (phase: Phase)
        ensures
            phase == self.state().phase,
    {
        self.phase
    }

    /// The failure that ended the loop, if one did.
    pub fn fault(&self) -> (fault: Option<CoreError>)
        ensures
            fault == self.state().fault,
    {
        self.fault
    }

    /// The colour and label of the frame seen last, if any.
    pub fn sighting(&self) -> (sighting: Option<(Color, ClosestColor)>)
        ensures
            sighting == self.state().sighting,
    {
        self.sighting
    }

    /// The label of a colour under the loop's palette and the action the
    /// policy holds for it.
    pub fn decide(&self, color: &Color) -> (res: (ClosestColor, DriveAction))
        ensures
            res == decision(self.settings(), *color),
    {
        let label = self.palette.closest(color);
        (label, self.policy.action_for(label))
    }

    /// The maneuver that carries out a drive action.
    pub fn maneuver_for(&self, action: DriveAction) -> (m: Maneuver)
        ensures
            m.plan() == action_steps(action, self.settings().pacing),
            m.issued() == 0,
            !m.aborted(),
    {
        match action {
            DriveAction::Stop => self.robot.stop(),
            DriveAction::Move { direction, speed, duration } => self.robot.move_direction(
                direction,
                speed,
                duration,
            ),
        }
    }

    /// Takes a report and answers with the next action.
    pub fn step(&mut self, event: LoopEvent) -> (action: LoopAction)
        ensures
            final(self).settings() == old(self).settings(),
            (final(self).state(), action.request()) == transition(
                old(self).settings(),
                old(self).state(),
                event,
            ),
            action.fresh(),
    {
        proof {
            use_type_invariant(&*self);
        }
        match self.phase {
            Phase::Exited => LoopAction::Exit(self.exit_code),
            Phase::Stopping => {
                self.phase = Phase::Exited;
                LoopAction::Exit(self.exit_code)
            },
            _ => match event {
                LoopEvent::Shutdown => self.halt(EXIT_OK, self.fault),
                LoopEvent::Faulted(e) => self.halt(EXIT_RUNTIME_FAILURE, Some(e)),
                LoopEvent::Started => {
                    if self.phase == Phase::Ready {
                        self.phase = Phase::Capturing;
                        LoopAction::Capture
                    } else {
                        self.halt(EXIT_RUNTIME_FAILURE, self.fault)
                    }
                },
                LoopEvent::Averaged(c) => {
                    if self.phase == Phase::Capturing {
                        let (label, action) = self.decide(&c);
                        self.phase = Phase::Driving;
                        self.sighting = Some((c, label));
                        LoopAction::Drive(self.maneuver_for(action))
                    } else {
                        self.halt(EXIT_RUNTIME_FAILURE, self.fault)
                    }
                },
                LoopEvent::Moved => {
                    if self.phase == Phase::Driving {
                        self.phase = Phase::Resting;
                        LoopAction::Rest(self.interval)
                    } else {
                        self.halt(EXIT_RUNTIME_FAILURE, self.fault)
                    }
                },
                LoopEvent::Rested => {
                    if self.phase == Phase::Resting {
                        self.phase = Phase::Capturing;
                        LoopAction::Capture
                    } else {
                        self.halt(EXIT_RUNTIME_FAILURE, self.fault)
                    }
                },
            },
        }
    }

    /// Takes a captured frame: averages it and reports the colour, or the
    /// failure, to `step`.
    ///
    /// The average depends on the converter, so the contract says only that
    /// a frame of the configured size is reported as some colour, and any
    /// other frame as a failure to decode.
    pub fn on_frame(&mut self, frame: &[u8]) -> (action: LoopAction)
        ensures
            final(self).settings() == old(self).settings(),
            action.fresh(),
            frame@.len() == old(self).settings().geometry.yuyv_bytes() ==> exists|c: Color|
                (final(self).state(), action.request()) == #[trigger] transition(
                    old(self).settings(),
                    old(self).state(),
                    LoopEvent::Averaged(c),
                ),
            frame@.len() != old(self).settings().geometry.yuyv_bytes() ==> (
                final(self).state(),
                action.request(),
            ) == transition(
                old(self).settings(),
                old(self).state(),
                LoopEvent::Faulted(CoreError::DecodeFailed),
            ),
    {
        proof {
            use_type_invariant(&*self);
        }
        let event = match average_frame(frame, &self.geometry, self.matrix) {
            Ok(color) => LoopEvent::Averaged(color),
            Err(e) => LoopEvent::Faulted(e),
        };
        self.step(event)
    }

    /// Enters the halt before leaving.
    fn halt(&mut self, exit_code: i32, fault: Option<CoreError>) -> (action: LoopAction)
        ensures
            final(self).settings() == old(self).settings(),
            final(self).state() == halting(old(self).state(), exit_code as int, fault),
            action.request() == Request::Drive(
                plan_steps(stop_commands(), old(self).settings().pacing, None),
            ),
            action.fresh(),
    {
        proof {
            use_type_invariant(&*self);
        }
        self.phase = Phase::Stopping;
        self.exit_code = exit_code;
        self.fault = fault;
        LoopAction::Drive(self.robot.stop())
    }
}

/// The loop never asks to exit without having handed out the halt: an exit
/// is requested only from the phase that the halt leads to, or after the
/// loop is over, and whatever enters that phase requests the halt.
pub proof fn exit_only_after_halt(settings: LoopSettings, state: LoopState, event: LoopEvent)
    ensures
        ({
            let (next, request) = transition(settings, state, event);
            &&& request is Exit ==> state.phase is Stopping || state.phase is Exited
            &&& request is Exit ==> next.phase is Exited
            &&& next.phase is Stopping ==> request == Request::Drive(
                plan_steps(stop_commands(), settings.pacing, None),
            )
            &&& next.phase is Exited ==> request == Request::Exit(state.exit_code)
        }),
{
}

/// The requests the loop makes over a run: one for each reported event, in
/// order, starting from `state`.
pub open spec fn requests_over(settings: LoopSettings, state: LoopState, events: Seq<LoopEvent>)
    -> Seq<Request>
    decreases events.len(),
{
    if events.len() == 0 {
        Seq::empty()
    } else {
        let (next, request) = transition(settings, state, events.first());
        seq![request] + requests_over(settings, next, events.drop_first())
    }
}

/// The loop answers every event with exactly one request.
pub proof fn one_request_per_event(
    settings: LoopSettings,
    state: LoopState,
    events: Seq<LoopEvent>,
)
    ensures
        requests_over(settings, state, events).len() == events.len(),
    decreases events.len(),
{
    if events.len() > 0 {
        let (next, _) = transition(settings, state, events.first());
        one_request_per_event(settings, next, events.drop_first());
    }
}

/// Over any run that starts before the halt, whatever is reported and in
/// whatever order, a request to exit comes only after a request to halt
/// the wheels.
pub proof fn every_exit_follows_a_halt(
    settings: LoopSettings,
    state: LoopState,
    events: Seq<LoopEvent>,
    i: int,
)
    requires
        !(state.phase is Stopping),
        !(state.phase is Exited),
        0 <= i < events.len(),
        requests_over(settings, state, events)[i] is Exit,
    ensures
        exists|j: int|
            0 <= j < i && #[trigger] requests_over(settings, state, events)[j] == Request::Drive(
                plan_steps(stop_commands(), settings.pacing, None),
            ),
    decreases events.len(),
{
    let halt = Request::Drive(plan_steps(stop_commands(), settings.pacing, None));
    let (next, first) = transition(settings, state, events.first());
    let rest = requests_over(settings, next, events.drop_first());
    let all = requests_over(settings, state, events);
    one_request_per_event(settings, next, events.drop_first());
    assert(all == seq![first] + rest);
    assert(all[0] == first);
    assert(!(first is Exit));
    assert(i >= 1);
    assert(all[i] == rest[i - 1]);
    if next.phase is Stopping {
        assert(all[0] == halt);
    } else {
        every_exit_follows_a_halt(settings, next, events.drop_first(), i - 1);
        let j = choose|j: int| 0 <= j < i - 1 && #[trigger] rest[j] == halt;
        assert(all[j + 1] == rest[j]);
    }
}

/// A fault or a shutdown is never ignored: from any phase before the halt,
/// it leads to the halt, with the exit code that says why.
pub proof fn failure_leads_to_halt(settings: LoopSettings, state: LoopState, e: CoreError)
    requires
        !(state.phase is Stopping),
        !(state.phase is Exited),
    ensures
        transition(settings, state, LoopEvent::Faulted(e)).0 == halting(
            state,
            EXIT_RUNTIME_FAILURE as int,
            Some(e),
        ),
        transition(settings, state, LoopEvent::Shutdown).0 == halting(
            state,
            EXIT_OK as int,
            state.fault,
        ),
{
}

/// Under the default policy the loop only ever halts the wheels: whatever
/// colour a frame has, the drive it asks for is the halt.
pub proof fn default_policy_only_halts(settings: LoopSettings, state: LoopState, c: Color)
    requires
        forall|label: ClosestColor| settings.policy.action(label) == DriveAction::Stop,
        state.phase is Capturing,
    ensures
        transition(settings, state, LoopEvent::Averaged(c)).1 == Request::Drive(
            plan_steps(stop_commands(), settings.pacing, None),
        ),
{
}

} // verus!
