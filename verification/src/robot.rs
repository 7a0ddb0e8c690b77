//! The robot facade: high-level moves turned into the exact sequence of bus
//! writes and pauses that performs them.
//!
//! Nothing here touches the bus. A move is planned as a `Maneuver`; the
//! program that owns the bus asks it for one step at a time, performs the
//! step, and reports how it went.

use std::time::Duration;
use vstd::prelude::*;
use crate::protocol::{Motor, MotorCommand, MotorDirection};

verus! {

/// Number of drive wheels.
pub const WHEELS: usize = 4;

/// A high-level move of the whole robot.
#[derive(Clone, Copy, Debug, PartialEq, Eq, Structural)]
pub enum Direction {
    Forward,
    Backward,
    Left,
    Right,
}

/// A sense of rotation about the vertical axis.
#[derive(Clone, Copy, Debug, PartialEq, Eq, Structural)]
pub enum Rotation {
    Clockwise,
    CounterClockwise,
}

/// The wheels in the order they are commanded: front left, front right,
/// back left, back right.
pub open spec fn wheel(i: int) -> Motor {
    if i == 0 {
        Motor::ForwardLeft
    } else if i == 1 {
        Motor::ForwardRight
    } else if i == 2 {
        Motor::BackwardLeft
    } else {
        Motor::BackwardRight
    }
}

/// The sense each wheel turns in for a move. Forward and backward drive all
/// four alike; left and right turn on the spot by driving the front pair
/// against the back pair.
pub open spec fn wheel_direction(direction: Direction, motor: Motor) -> MotorDirection {
    match direction {
        Direction::Forward => MotorDirection::Forward,
        Direction::Backward => MotorDirection::Reverse,
        Direction::Left => match motor {
            Motor::ForwardLeft | Motor::ForwardRight => MotorDirection::Forward,
            Motor::BackwardLeft | Motor::BackwardRight => MotorDirection::Reverse,
        },
        Direction::Right => match motor {
            Motor::ForwardLeft | Motor::ForwardRight => MotorDirection::Reverse,
            Motor::BackwardLeft | Motor::BackwardRight => MotorDirection::Forward,
        },
    }
}

/// The four motor commands of a move, in wheel order.
pub open spec fn move_commands(direction: Direction, speed: u8) -> Seq<MotorCommand> {
    Seq::new(
        WHEELS as nat,
        |i: int|
            MotorCommand {
                motor: wheel(i),
                direction: wheel_direction(direction, wheel(i)),
                speed,
            },
    )
}

/// The four motor commands that halt the robot: every wheel, speed zero,
/// sense forward.
pub open spec fn stop_commands() -> Seq<MotorCommand> {
    Seq::new(
        WHEELS as nat,
        |i: int| MotorCommand { motor: wheel(i), direction: MotorDirection::Forward, speed: 0 },
    )
}

/// One thing for the owner of the bus to do.
#[derive(Clone, Copy, Debug, PartialEq, Eq)]
pub enum BusStep {
    /// Write this command to the motor-control register.
    Write(MotorCommand),
    /// Block for this long.
    Pause(Duration),
}

/// The writes of `commands` in order, with a pause of `pacing` between each
/// two successive writes when pacing is configured.
pub open spec fn paced_writes(commands: Seq<MotorCommand>, pacing: Option<Duration>) -> Seq<
    BusStep,
>
    decreases commands.len(),
{
    if commands.len() == 0 {
        Seq::empty()
    } else if commands.len() == 1 {
        seq![BusStep::Write(commands[0])]
    } else {
        let before = paced_writes(commands.drop_last(), pacing);
        match pacing {
            Some(gap) => before.push(BusStep::Pause(gap)).push(BusStep::Write(commands.last())),
            None => before.push(BusStep::Write(commands.last())),
        }
    }
}

/// The steps of a maneuver: the paced writes, then a pause of `hold` if the
/// maneuver is to be held for some time.
pub open spec fn plan_steps(
    commands: Seq<MotorCommand>,
    pacing: Option<Duration>,
    hold: Option<Duration>,
) -> Seq<BusStep> {
    match hold {
        Some(d) => paced_writes(commands, pacing).push(BusStep::Pause(d)),
        None => paced_writes(commands, pacing),
    }
}

/// The motor commands among `steps`, in order.
pub open spec fn writes_of(steps: Seq<BusStep>) -> Seq<MotorCommand>
    decreases steps.len(),
{
    if steps.len() == 0 {
        Seq::empty()
    } else {
        match steps.last() {
            BusStep::Write(cmd) => writes_of(steps.drop_last()).push(cmd),
            BusStep::Pause(_) => writes_of(steps.drop_last()),
        }
    }
}

/// How the step handed out last went.
#[derive(Clone, Copy, Debug, PartialEq, Eq, Structural)]
pub enum StepOutcome {
    /// It was performed; also what to report before the first step.
    Completed,
    /// The bus refused it.
    Failed,
}

/// What a maneuver asks for next.
#[derive(Clone, Copy, Debug, PartialEq, Eq)]
pub enum Progress {
    /// Perform this step, then report its outcome.
    Perform(BusStep),
    /// Every step was performed.
    Finished,
    /// A step failed; the rest of the plan was dropped.
    Aborted,
}

/// A planned sequence of bus steps and how far it has been carried out.
#[derive(Debug)]
pub struct Maneuver {
    steps: Vec<BusStep>,
    cursor: usize,
    aborted: bool,
}

impl Maneuver {
    #[verifier::type_invariant]
    spec fn inv(self) -> bool {
        self.cursor <= self.steps@.len()
    }

    /// All steps of the maneuver, in order.
    pub closed spec fn plan(&self) -> Seq<BusStep> {
        self.steps@
    }

    /// How many steps have been handed out so far.
    pub closed spec fn issued(&self) -> nat {
        self.cursor as nat
    }

    /// Whether a failure has ended the maneuver.
    pub closed spec fn aborted(&self) -> bool {
        self.aborted
    }

    /// What `advance` answers from a given state: after a failure, nothing
    /// more; otherwise the next step of the plan, until none is left.
    pub open spec fn answer(plan: Seq<BusStep>, issued: nat, aborted: bool, last: StepOutcome)
        -> Progress {
        if aborted || last is Failed {
            Progress::Aborted
        } else if issued < plan.len() {
            Progress::Perform(plan[issued as int])
        } else {
            Progress::Finished
        }
    }

    /// Takes the outcome of the step handed out last and hands out the next.
    ///
    /// A failure ends the maneuver: no step is retried and none of the
    /// remaining steps is handed out, now or later.
    pub fn advance(&mut self, last: StepOutcome) -> (next: Progress)
        ensures
            next == Self::answer(old(self).plan(), old(self).issued(), old(self).aborted(), last),
            final(self).plan() == old(self).plan(),
            final(self).aborted() == (old(self).aborted() || last is Failed),
            final(self).issued() == if next is Perform {
                old(self).issued() + 1
            } else {
                old(self).issued()
            },
            final(self).issued() <= final(self).plan().len(),
    {
        proof {
            use_type_invariant(&*self);
        }
        match last {
            StepOutcome::Failed => {
                self.aborted = true;
                Progress::Aborted
            },
            StepOutcome::Completed => {
                if self.aborted {
                    Progress::Aborted
                } else if self.cursor < self.steps.len() {
                    let step = self.steps[self.cursor];
                    self.cursor = self.cursor + 1;
                    Progress::Perform(step)
                } else {
                    Progress::Finished
                }
            },
        }
    }

    /// The steps not yet handed out.
    pub fn remaining(&self) -> (n: usize)
        ensures
            n == self.plan().len() - self.issued(),
    {
        proof {
            use_type_invariant(self);
        }
        self.steps.len() - self.cursor
    }
}

/// The facade over the peripheral bus. It holds the one setting that shapes
/// a plan: the pause to leave between successive register writes.
#[derive(Clone, Copy, Debug)]
pub struct Robot {
    pacing: Option<Duration>,
}

impl Robot {
    /// The configured pause between successive writes, if any.
    pub closed spec fn pacing(&self) -> Option<Duration> {
        self.pacing
    }

    /// A robot that writes its registers back to back.
    pub fn new() -> (robot: Robot)
        ensures
            robot.pacing() is None,
    {
        Robot { pacing: None }
    }

    /// A robot that leaves `interval` between successive register writes.
    pub fn with_pacing(interval: Duration) -> (robot: Robot)
        ensures
            robot.pacing() == Some(interval),
    {
        Robot { pacing: Some(interval) }
    }

    /// The command that turns one wheel.
    pub fn move_motor(&self, motor: Motor, direction: MotorDirection, speed: u8) -> (cmd:
        MotorCommand)
        ensures
            cmd == (MotorCommand { motor, direction, speed }),
            cmd.wire_bytes() == seq![
                0x01u8,
                motor.wire_byte(),
                direction.wire_byte(),
                speed,
            ],
            cmd.wire_bytes().len() == 4,
    {
        MotorCommand { motor, direction, speed }
    }

    /// Plans a halt: speed zero to every wheel, in wheel order.
    pub fn stop(&self) -> (m: Maneuver)
        ensures
            m.plan() == plan_steps(stop_commands(), self.pacing(), None),
            m.issued() == 0,
            !m.aborted(),
    {
        let mut commands: Vec<MotorCommand> = Vec::new();
        commands.push(self.move_motor(Motor::ForwardLeft, MotorDirection::Forward, 0));
        commands.push(self.move_motor(Motor::ForwardRight, MotorDirection::Forward, 0));
        commands.push(self.move_motor(Motor::BackwardLeft, MotorDirection::Forward, 0));
        commands.push(self.move_motor(Motor::BackwardRight, MotorDirection::Forward, 0));
        assert(commands@ =~= stop_commands());
        self.plan(&commands, None)
    }

    /// Plans a move: one command per wheel at `speed`, in wheel order, each
    /// in the sense the move calls for, then a pause of `duration`.
    pub fn move_direction(&self, direction: Direction, speed: u8, duration: Duration) -> (m:
        Maneuver)
        ensures
            m.plan() == plan_steps(move_commands(direction, speed), self.pacing(), Some(duration)),
            m.issued() == 0,
            !m.aborted(),
    {
        let (front, back) = match direction {
            Direction::Forward => (MotorDirection::Forward, MotorDirection::Forward),
            Direction::Backward => (MotorDirection::Reverse, MotorDirection::Reverse),
            Direction::Left => (MotorDirection::Forward, MotorDirection::Reverse),
            Direction::Right => (MotorDirection::Reverse, MotorDirection::Forward),
        };
        let mut commands: Vec<MotorCommand> = Vec::new();
        commands.push(self.move_motor(Motor::ForwardLeft, front, speed));
        commands.push(self.move_motor(Motor::ForwardRight, front, speed));
        commands.push(self.move_motor(Motor::BackwardLeft, back, speed));
        commands.push(self.move_motor(Motor::BackwardRight, back, speed));
        assert(commands@ =~= move_commands(direction, speed));
        self.plan(&commands, Some(duration))
    }

    /// Lays out the steps for `commands`: the writes in order, paced as
    /// configured, then the hold.
    fn plan(&self, commands: &Vec<MotorCommand>, hold: Option<Duration>) -> (m: Maneuver)
        ensures
            m.plan() == plan_steps(commands@, self.pacing(), hold),
            m.issued() == 0,
            !m.aborted(),
    {
        let mut steps: Vec<BusStep> = Vec::new();
        let mut i: usize = 0;
        while i < commands.len()
            invariant
                i <= commands@.len(),
                steps@ == paced_writes(commands@.take(i as int), self.pacing()),
            decreases commands@.len() - i,
        {
            if i > 0 {
                match self.pacing {
                    Some(gap) => {
                        steps.push(BusStep::Pause(gap));
                    },
                    None => {},
                }
            }
            steps.push(BusStep::Write(commands[i]));
            proof {
                let done = commands@.take(i as int + 1);
                assert(done.drop_last() =~= commands@.take(i as int));
                assert(done.last() == commands@[i as int]);
            }
            i += 1;
        }
        assert(commands@.take(i as int) =~= commands@);
        match hold {
            Some(d) => {
                steps.push(BusStep::Pause(d));
            },
            None => {},
        }
        Maneuver { steps, cursor: 0, aborted: false }
    }
}

/// The answers a maneuver gives over a run of reported outcomes, starting
/// with `issued` steps handed out.
pub open spec fn answers_over(
    plan: Seq<BusStep>,
    issued: nat,
    aborted: bool,
    outcomes: Seq<StepOutcome>,
) -> Seq<Progress>
    decreases outcomes.len(),
{
    if outcomes.len() == 0 {
        Seq::empty()
    } else {
        let answer = Maneuver::answer(plan, issued, aborted, outcomes.first());
        let issued_next = if answer is Perform {
            issued + 1
        } else {
            issued
        };
        let aborted_next = aborted || outcomes.first() is Failed;
        seq![answer] + answers_over(plan, issued_next, aborted_next, outcomes.drop_first())
    }
}

/// A maneuver answers every report with exactly one answer.
pub proof fn one_answer_per_outcome(
    plan: Seq<BusStep>,
    issued: nat,
    aborted: bool,
    outcomes: Seq<StepOutcome>,
)
    ensures
        answers_over(plan, issued, aborted, outcomes).len() == outcomes.len(),
    decreases outcomes.len(),
{
    if outcomes.len() > 0 {
        let answer = Maneuver::answer(plan, issued, aborted, outcomes.first());
        let issued_next = if answer is Perform {
            issued + 1
        } else {
            issued
        };
        one_answer_per_outcome(
            plan,
            issued_next,
            aborted || outcomes.first() is Failed,
            outcomes.drop_first(),
        );
    }
}

/// While nothing fails, the steps are handed out in plan order, each once,
/// none skipped; after the last one the maneuver is finished and stays so.
pub proof fn steps_come_in_plan_order(
    plan: Seq<BusStep>,
    issued: nat,
    outcomes: Seq<StepOutcome>,
    k: int,
)
    requires
        issued <= plan.len(),
        0 <= k < outcomes.len(),
        forall|m: int| 0 <= m <= k ==> outcomes[m] is Completed,
    ensures
        answers_over(plan, issued, false, outcomes)[k] == if issued + k < plan.len() {
            Progress::Perform(plan[issued + k])
        } else {
            Progress::Finished
        },
    decreases outcomes.len(),
{
    let answer = Maneuver::answer(plan, issued, false, outcomes.first());
    let issued_next = if answer is Perform {
        issued + 1
    } else {
        issued
    };
    let rest = answers_over(plan, issued_next, false, outcomes.drop_first());
    one_answer_per_outcome(plan, issued_next, false, outcomes.drop_first());
    assert(outcomes[0] is Completed);
    assert(answers_over(plan, issued, false, outcomes) == seq![answer] + rest);
    if k > 0 {
        assert forall|m: int| 0 <= m <= k - 1 implies outcomes.drop_first()[m] is Completed by {
            assert(outcomes.drop_first()[m] == outcomes[m + 1]);
        }
        steps_come_in_plan_order(plan, issued_next, outcomes.drop_first(), k - 1);
        assert((seq![answer] + rest)[k] == rest[k - 1]);
    }
}

/// A failure is final: from the report of a failed step on, the maneuver
/// hands out nothing, neither that step again nor any later one.
pub proof fn nothing_follows_a_failure(
    plan: Seq<BusStep>,
    issued: nat,
    aborted: bool,
    outcomes: Seq<StepOutcome>,
    k: int,
    m: int,
)
    requires
        0 <= k <= m < outcomes.len(),
        aborted || outcomes[k] is Failed,
    ensures
        answers_over(plan, issued, aborted, outcomes)[m] == Progress::Aborted,
    decreases outcomes.len(),
{
    let answer = Maneuver::answer(plan, issued, aborted, outcomes.first());
    let issued_next = if answer is Perform {
        issued + 1
    } else {
        issued
    };
    let aborted_next = aborted || outcomes.first() is Failed;
    let rest = answers_over(plan, issued_next, aborted_next, outcomes.drop_first());
    one_answer_per_outcome(plan, issued_next, aborted_next, outcomes.drop_first());
    assert(answers_over(plan, issued, aborted, outcomes) == seq![answer] + rest);
    if m > 0 {
        let k_rest = if k == 0 {
            0
        } else {
            k - 1
        };
        if k > 0 {
            assert(outcomes.drop_first()[k - 1] == outcomes[k]);
        }
        nothing_follows_a_failure(
            plan,
            issued_next,
            aborted_next,
            outcomes.drop_first(),
            k_rest,
            m - 1,
        );
        assert((seq![answer] + rest)[m] == rest[m - 1]);
    }
}

/// Pacing and holding add pauses only: the writes of a plan are the planned
/// commands, each once, in order.
pub proof fn plan_writes_are_the_commands(
    commands: Seq<MotorCommand>,
    pacing: Option<Duration>,
    hold: Option<Duration>,
)
    ensures
        writes_of(plan_steps(commands, pacing, hold)) == commands,
        writes_of(paced_writes(commands, pacing)) == commands,
    decreases commands.len(),
{
    let paced = paced_writes(commands, pacing);
    if commands.len() == 0 {
        assert(writes_of(paced) =~= commands);
    } else if commands.len() == 1 {
        assert(paced.drop_last() =~= Seq::<BusStep>::empty());
        assert(writes_of(Seq::<BusStep>::empty()) =~= Seq::<MotorCommand>::empty());
        assert(paced.last() == BusStep::Write(commands[0]));
        assert(writes_of(paced) =~= commands);
    } else {
        let before = paced_writes(commands.drop_last(), pacing);
        plan_writes_are_the_commands(commands.drop_last(), pacing, None);
        match pacing {
            Some(gap) => {
                let mid = before.push(BusStep::Pause(gap));
                assert(mid.drop_last() =~= before);
                assert(writes_of(mid) == writes_of(before));
                assert(paced.drop_last() =~= mid);
            },
            None => {
                assert(paced.drop_last() =~= before);
            },
        }
        assert(writes_of(paced) =~= commands.drop_last().push(commands.last()));
        assert(commands.drop_last().push(commands.last()) =~= commands);
    }
    match hold {
        Some(d) => {
            assert(paced.push(BusStep::Pause(d)).drop_last() =~= paced);
        },
        None => {},
    }
}

/// Without pacing a plan is its writes back to back, then the hold: for the
/// four commands of a move, five steps.
pub proof fn unpaced_plan(commands: Seq<MotorCommand>, hold: Duration)
    requires
        commands.len() == 4,
    ensures
        plan_steps(commands, None, Some(hold)) == seq![
            BusStep::Write(commands[0]),
            BusStep::Write(commands[1]),
            BusStep::Write(commands[2]),
            BusStep::Write(commands[3]),
            BusStep::Pause(hold),
        ],
        plan_steps(commands, None, None) == seq![
            BusStep::Write(commands[0]),
            BusStep::Write(commands[1]),
            BusStep::Write(commands[2]),
            BusStep::Write(commands[3]),
        ],
{
    reveal_with_fuel(paced_writes, 5);
    let three = commands.drop_last();
    let two = three.drop_last();
    let one = two.drop_last();
    assert(one.len() == 1 && two.len() == 2 && three.len() == 3);
    assert(plan_steps(commands, None, Some(hold)) =~= seq![
        BusStep::Write(commands[0]),
        BusStep::Write(commands[1]),
        BusStep::Write(commands[2]),
        BusStep::Write(commands[3]),
        BusStep::Pause(hold),
    ]);
    assert(plan_steps(commands, None, None) =~= seq![
        BusStep::Write(commands[0]),
        BusStep::Write(commands[1]),
        BusStep::Write(commands[2]),
        BusStep::Write(commands[3]),
    ]);
}

/// A halt writes to every wheel once, in wheel order, speed zero, whatever
/// the pacing.
pub proof fn stop_reaches_every_wheel(pacing: Option<Duration>)
    ensures
        writes_of(plan_steps(stop_commands(), pacing, None)).len() == 4,
        forall|i: int|
            0 <= i < 4 ==> ({
                let cmd = #[trigger] writes_of(plan_steps(stop_commands(), pacing, None))[i];
                cmd.motor == wheel(i) && cmd.speed == 0 && cmd.direction == MotorDirection::Forward
                    && cmd.wire_bytes() == seq![0x01u8, i as u8, 1u8, 0u8]
            }),
{
    plan_writes_are_the_commands(stop_commands(), pacing, None);
    assert forall|i: int| 0 <= i < 4 implies {
        let cmd = #[trigger] stop_commands()[i];
        cmd.wire_bytes() == seq![0x01u8, i as u8, 1u8, 0u8]
    } by {
        assert(stop_commands()[i].wire_bytes() =~= seq![0x01u8, i as u8, 1u8, 0u8]);
    }
}

} // verus!
