//! The task sequencer: a state machine that leads the tool through the
//! pick-and-place cycle, one simulation step at a time.

use vstd::prelude::*;
use crate::geometry::Point;
use crate::robot::robot_arm::{IkError, JointSolution, RobotArm};
use crate::sim::trajectory::{
    lemma_fresh_starts_at_from, lemma_position_at_end, lemma_update_monotone, total,
    LinearTrajectory, TrajectoryView,
};

verus! {

/// Microseconds that the tool dwells at the start point to pick the object.
pub const PICK_DURATION: u64 = 450_000;

/// Microseconds that the tool dwells at the goal point to place the object.
pub const PLACE_DURATION: u64 = 350_000;

/// Microseconds that the tool waits at home before the cycle starts again.
pub const RESET_WAIT: u64 = 1_500_000;

/// The shortest time that a leg may take, in microseconds.
pub const MIN_SEGMENT_DURATION: u64 = 350_000;

/// The longest time that a leg may take, in microseconds.
pub const MAX_SEGMENT_DURATION: u64 = 8_000_000;

/// The lowest tool speed that is taken at its word, in micrometres per
/// second; a lower one counts as this.
pub const MIN_SPEED: u64 = 1_000;

/// `v` held between `lo` and `hi`; `lo` wins where the two bounds cross.
pub open spec fn spec_clamp(v: nat, lo: nat, hi: nat) -> nat {
    if v < lo {
        lo
    } else if v > hi {
        hi
    } else {
        v
    }
}

/// Holds `v` between `lo` and `hi`.
pub fn clamp(v: u64, lo: u64, hi: u64) -> (r: u64)
    ensures
        r == spec_clamp(v as nat, lo as nat, hi as nat),
{
    if v < lo {
        lo
    } else if v > hi {
        hi
    } else {
        v
    }
}

/// The time that the leg from `from` to `to` takes at `speed`: distance over
/// speed, in whole microseconds, held between the shortest and the longest
/// leg time. The distance is rounded down to a whole micrometre first.
pub open spec fn spec_segment_duration(from: Point, to: Point, speed: u64) -> nat {
    let s: nat = if speed >= MIN_SPEED {
        speed as nat
    } else {
        MIN_SPEED as nat
    };
    spec_clamp(
        (from.spec_distance(to) * 1_000_000) / s,
        MIN_SEGMENT_DURATION as nat,
        MAX_SEGMENT_DURATION as nat,
    )
}

/// The time that the leg from `from` to `to` takes at `speed`.
pub fn segment_duration(from: Point, to: Point, speed: u64) -> (r: u64)
    ensures
        r == spec_segment_duration(from, to, speed),
        MIN_SEGMENT_DURATION <= r <= MAX_SEGMENT_DURATION,
{
    let dist: u64 = from.distance(to);
    let s: u64 = if speed >= MIN_SPEED {
        speed
    } else {
        MIN_SPEED
    };
    clamp(dist * 1_000_000 / s, MIN_SEGMENT_DURATION, MAX_SEGMENT_DURATION)
}

/// The time that the dwell phase `phase` lasts, in microseconds.
pub open spec fn dwell_limit(phase: Phase) -> nat {
    match phase {
        Phase::PickAtStart => PICK_DURATION as nat,
        Phase::PlaceAtGoal => PLACE_DURATION as nat,
        _ => RESET_WAIT as nat,
    }
}

/// The phases of the cycle.
#[derive(Copy, Clone, Debug, PartialEq, Eq, Structural)]
pub enum Phase {
    MoveHomeToStart,
    PickAtStart,
    MoveStartToGoal,
    PlaceAtGoal,
    ReturnGoalToHome,
    WaitAtHomeReset,
    Error,
}

impl Phase {
    /// The tool is under way along a trajectory.
    pub open spec fn is_moving(self) -> bool {
        self == Phase::MoveHomeToStart || self == Phase::MoveStartToGoal || self
            == Phase::ReturnGoalToHome
    }

    /// The phase that follows in the cycle. The error phase has no way on.
    pub open spec fn next(self) -> Phase {
        match self {
            Phase::MoveHomeToStart => Phase::PickAtStart,
            Phase::PickAtStart => Phase::MoveStartToGoal,
            Phase::MoveStartToGoal => Phase::PlaceAtGoal,
            Phase::PlaceAtGoal => Phase::ReturnGoalToHome,
            Phase::ReturnGoalToHome => Phase::WaitAtHomeReset,
            Phase::WaitAtHomeReset => Phase::MoveHomeToStart,
            Phase::Error => Phase::Error,
        }
    }

    /// The line that a status display shows for the phase.
    pub open spec fn spec_label(self) -> Seq<char> {
        match self {
            Phase::MoveHomeToStart => "Phase: HOME -> START"@,
            Phase::PickAtStart => "Phase: PICK at START"@,
            Phase::MoveStartToGoal => "Phase: START -> GOAL (ball attached)"@,
            Phase::PlaceAtGoal => "Phase: PLACE at GOAL"@,
            Phase::ReturnGoalToHome => "Phase: GOAL -> HOME"@,
            Phase::WaitAtHomeReset => "Phase: WAIT then LOOP"@,
            Phase::Error => "Phase: ERROR"@,
        }
    }

    /// The line that a status display shows for the phase.
    pub fn label(self) -> (r: &'static str)
        ensures
            r@ == self.spec_label(),
    {
        match self {
            Phase::MoveHomeToStart => "Phase: HOME -> START",
            Phase::PickAtStart => "Phase: PICK at START",
            Phase::MoveStartToGoal => "Phase: START -> GOAL (ball attached)",
            Phase::PlaceAtGoal => "Phase: PLACE at GOAL",
            Phase::ReturnGoalToHome => "Phase: GOAL -> HOME",
            Phase::WaitAtHomeReset => "Phase: WAIT then LOOP",
            Phase::Error => "Phase: ERROR",
        }
    }

    /// The tool stands still and a dwell timer runs.
    pub open spec fn is_dwell(self) -> bool {
        self == Phase::PickAtStart || self == Phase::PlaceAtGoal || self
            == Phase::WaitAtHomeReset
    }
}

/// Where the carried object is.
#[derive(Copy, Clone, Debug, PartialEq, Eq, Structural)]
pub enum BallState {
    AtStart,
    Attached,
    AtGoal,
}

/// Why a mission was refused: for each of its three points, the reason it
/// cannot be reached, if any. At least one of the three is set.
#[derive(Copy, Clone, Debug, PartialEq, Eq)]
pub struct MissionError {
    pub home: Option<IkError>,
    pub start: Option<IkError>,
    pub goal: Option<IkError>,
}

/// The sentence that names a point which cannot be reached, with the reason;
/// nothing for a point that can.
pub open spec fn point_message(name: Seq<char>, e: Option<IkError>) -> Seq<char> {
    match e {
        Some(e) => name + " not reachable: "@ + e.spec_message() + "."@,
        None => Seq::<char>::empty(),
    }
}

/// Two texts with a blank between them; an empty one adds nothing.
pub open spec fn join_sentences(a: Seq<char>, b: Seq<char>) -> Seq<char> {
    if a.len() == 0 {
        b
    } else if b.len() == 0 {
        a
    } else {
        a + " "@ + b
    }
}

/// Writes the sentence for one point of a mission.
fn point_sentence(name: &str, e: &Option<IkError>) -> (r: String)
    ensures
        r@ == point_message(name@, *e),
{
    match e {
        Some(e) => {
            let mut s: String = String::from_str(name);
            s.append(" not reachable: ");
            s.append(e.message().as_str());
            s.append(".");
            s
        },
        None => String::new(),
    }
}

/// Joins two texts with a blank.
fn join(a: String, b: String) -> (r: String)
    ensures
        r@ == join_sentences(a@, b@),
{
    if a.as_str().is_empty() {
        b
    } else if b.as_str().is_empty() {
        a
    } else {
        let mut s: String = a;
        s.append(" ");
        s.append(b.as_str());
        s
    }
}

impl MissionError {
    /// The refusal in words: one sentence for each point that cannot be
    /// reached, naming it as `HOME`, `START` or `GOAL` and giving the reason.
    pub open spec fn spec_message(self) -> Seq<char> {
        join_sentences(
            join_sentences(point_message("HOME"@, self.home), point_message("START"@, self.start)),
            point_message("GOAL"@, self.goal),
        )
    }

    /// The refusal in words.
    pub fn message(&self) -> (r: String)
        ensures
            r@ == self.spec_message(),
    {
        let home: String = point_sentence("HOME", &self.home);
        let start: String = point_sentence("START", &self.start);
        let goal: String = point_sentence("GOAL", &self.goal);
        join(join(home, start), goal)
    }
}

/// The mathematical content of the sequencer.
pub struct SequencerView {
    pub arm: RobotArm,
    pub home: Point,
    pub start: Point,
    pub goal: Point,
    /// Tool speed along a leg, micrometres per second.
    pub speed: u64,
    pub phase: Phase,
    /// Microseconds spent in the current dwell.
    pub timer: nat,
    pub ball_state: BallState,
    /// The point that the tool is commanded to.
    pub target: Point,
    /// The joint solution of the last target that was reachable.
    pub qcmd: Option<JointSolution>,
    pub traj: TrajectoryView,
    /// The reason for the error phase.
    pub error: Option<IkError>,
}

impl SequencerView {
    /// Where the object is while the tool is under way in `phase`.
    pub open spec fn ball_under_way(phase: Phase) -> BallState {
        match phase {
            Phase::MoveHomeToStart => BallState::AtStart,
            Phase::MoveStartToGoal => BallState::Attached,
            _ => BallState::AtGoal,
        }
    }

    /// The point at which the leg of `phase` begins.
    pub open spec fn leg_from(self, phase: Phase) -> Point {
        match phase {
            Phase::MoveHomeToStart => self.home,
            Phase::MoveStartToGoal => self.start,
            _ => self.goal,
        }
    }

    /// The point at which the leg of `phase` ends.
    pub open spec fn leg_to(self, phase: Phase) -> Point {
        match phase {
            Phase::MoveHomeToStart => self.start,
            Phase::MoveStartToGoal => self.goal,
            _ => self.home,
        }
    }

    /// What holds of every state that the sequencer can be in.
    ///
    /// A dwell timer has not yet run out. The error phase, and no other, has
    /// a reason. While the tool is under way, its trajectory is the leg of
    /// the phase, timed by the speed of the mission and not finished, the
    /// target is the point reached on it and reachable, the commanded joints
    /// solve that target, the object is where the phase puts it, and no
    /// dwell timer runs.
    pub open spec fn wf(self) -> bool {
        &&& self.traj.wf()
        &&& self.phase == Phase::PickAtStart ==> self.timer < PICK_DURATION
        &&& self.phase == Phase::PlaceAtGoal ==> self.timer < PLACE_DURATION
        &&& self.phase == Phase::WaitAtHomeReset ==> self.timer < RESET_WAIT
        &&& self.phase == Phase::Error <==> self.error is Some
        &&& self.phase.is_moving() ==> {
            &&& !self.traj.finished
            &&& self.traj.from == self.leg_from(self.phase)
            &&& self.traj.to == self.leg_to(self.phase)
            &&& self.traj.duration == spec_segment_duration(
                self.traj.from,
                self.traj.to,
                self.speed,
            )
            &&& self.target == self.traj.position()
            &&& self.arm.reachable(self.target)
            &&& self.qcmd == Some(self.arm.spec_solve_ik(self.target, false).q)
            &&& self.ball_state == Self::ball_under_way(self.phase)
            &&& self.timer == 0
        }
    }

    /// The state before any mission: waiting at home, the object at the
    /// start point.
    pub open spec fn initial(
        arm: RobotArm,
        home: Point,
        start: Point,
        goal: Point,
        speed: u64,
    ) -> SequencerView {
        SequencerView {
            arm,
            home,
            start,
            goal,
            speed,
            phase: Phase::WaitAtHomeReset,
            timer: 0,
            ball_state: BallState::AtStart,
            target: home,
            qcmd: None,
            traj: TrajectoryView {
                from: Point { x: 0, y: 0, z: 0 },
                to: Point { x: 0, y: 0, z: 0 },
                duration: 1_000_000,
                elapsed: 0,
                finished: true,
            },
            error: None,
        }
    }

    /// All three points of a mission can be reached.
    pub open spec fn mission_valid(arm: RobotArm, home: Point, start: Point, goal: Point) -> bool {
        arm.reachable(home) && arm.reachable(start) && arm.reachable(goal)
    }

    /// What a mission that is not valid is refused with: for each point the
    /// reason why it cannot be reached, none for a point that can.
    pub open spec fn refusal(arm: RobotArm, home: Point, start: Point, goal: Point) -> MissionError {
        MissionError {
            home: arm.spec_solve_ik(home, false).error,
            start: arm.spec_solve_ik(start, false).error,
            goal: arm.spec_solve_ik(goal, false).error,
        }
    }

    /// The point where the object lies while it is not carried; none while
    /// it is attached to the tool.
    pub open spec fn resting_place(self) -> Option<Point> {
        match self.ball_state {
            BallState::AtStart => Some(self.start),
            BallState::AtGoal => Some(self.goal),
            BallState::Attached => None,
        }
    }

    /// The state in which a valid mission begins: the tool at home, under
    /// way to the start point, the object at the start point.
    pub open spec fn mission_begin(
        arm: RobotArm,
        home: Point,
        start: Point,
        goal: Point,
        speed: u64,
    ) -> SequencerView {
        SequencerView {
            arm,
            home,
            start,
            goal,
            speed,
            phase: Phase::MoveHomeToStart,
            timer: 0,
            ball_state: BallState::AtStart,
            target: home,
            qcmd: Some(arm.spec_solve_ik(home, false).q),
            traj: TrajectoryView::fresh(home, start, spec_segment_duration(home, start, speed)),
            error: None,
        }
    }

    /// A fresh trajectory for the leg from `from` to `to`.
    pub open spec fn leg(self, from: Point, to: Point) -> TrajectoryView {
        TrajectoryView::fresh(from, to, spec_segment_duration(from, to, self.speed))
    }

    /// A step in a moving phase: the trajectory is walked `dt` further and
    /// the target follows it; when it finishes, `next` begins with the dwell
    /// timer at zero and the target at `stop`.
    pub open spec fn advance_moving(self, dt: nat, next: Phase, stop: Point) -> SequencerView {
        let traj = self.traj.update(dt);
        if traj.finished {
            SequencerView {
                phase: next,
                timer: 0,
                target: stop,
                ball_state: Self::ball_under_way(self.phase),
                traj,
                ..self
            }
        } else {
            SequencerView {
                target: traj.position(),
                ball_state: Self::ball_under_way(self.phase),
                traj,
                ..self
            }
        }
    }

    /// A step in a dwell phase: the target stays at `stop` and the timer
    /// runs; when it reaches `limit`, the object goes over to `after`, the
    /// leg to `to` begins and with it the phase `next`.
    pub open spec fn advance_dwell(
        self,
        dt: nat,
        stop: Point,
        limit: nat,
        during: BallState,
        after: BallState,
        next: Phase,
        to: Point,
    ) -> SequencerView {
        if self.timer + dt >= limit {
            SequencerView {
                phase: next,
                timer: 0,
                target: stop,
                ball_state: after,
                traj: self.leg(stop, to),
                ..self
            }
        } else {
            SequencerView { timer: self.timer + dt, target: stop, ball_state: during, ..self }
        }
    }

    /// What the current phase does in a step of `dt` microseconds, before
    /// the new target is checked.
    pub open spec fn advance(self, dt: nat) -> SequencerView {
        match self.phase {
            Phase::MoveHomeToStart => self.advance_moving(dt, Phase::PickAtStart, self.start),
            Phase::PickAtStart => self.advance_dwell(
                dt,
                self.start,
                PICK_DURATION as nat,
                BallState::AtStart,
                BallState::Attached,
                Phase::MoveStartToGoal,
                self.goal,
            ),
            Phase::MoveStartToGoal => self.advance_moving(dt, Phase::PlaceAtGoal, self.goal),
            Phase::PlaceAtGoal => self.advance_dwell(
                dt,
                self.goal,
                PLACE_DURATION as nat,
                BallState::Attached,
                BallState::AtGoal,
                Phase::ReturnGoalToHome,
                self.home,
            ),
            Phase::ReturnGoalToHome => self.advance_moving(dt, Phase::WaitAtHomeReset, self.home),
            Phase::WaitAtHomeReset => self.advance_dwell(
                dt,
                self.home,
                RESET_WAIT as nat,
                BallState::AtGoal,
                BallState::AtStart,
                Phase::MoveHomeToStart,
                self.start,
            ),
            Phase::Error => self,
        }
    }

    /// The safety net of every step: the new target is put to inverse
    /// kinematics. A reachable one becomes the command; an unreachable one
    /// ends in the error phase with its reason, the command left as it was.
    pub open spec fn check_target(self) -> SequencerView {
        let ik = self.arm.spec_solve_ik(self.target, false);
        if ik.reachable {
            SequencerView { qcmd: Some(ik.q), ..self }
        } else {
            SequencerView { phase: Phase::Error, error: ik.error, ..self }
        }
    }

    /// One simulation step of `dt` microseconds. In the error phase nothing
    /// moves.
    pub open spec fn step(self, dt: nat) -> SequencerView {
        if self.phase == Phase::Error {
            self
        } else {
            self.advance(dt).check_target()
        }
    }

    /// Every point of the leg that the tool is on can be reached.
    pub open spec fn leg_clear(self) -> bool {
        forall|t: nat|
            t <= self.traj.duration ==> self.arm.reachable(
                (#[trigger] self.traj.at(t)).position(),
            )
    }

    /// The state under way on the same leg with `t` microseconds walked: the
    /// target is the point reached by then, and the joints are commanded to
    /// it.
    pub open spec fn under_way_at(self, t: nat) -> SequencerView {
        SequencerView {
            traj: self.traj.at(t),
            target: self.traj.at(t).position(),
            qcmd: Some(self.arm.spec_solve_ik(self.traj.at(t).position(), false).q),
            ..self
        }
    }

    /// The state after one step for each entry of `dts`, in order.
    pub open spec fn run(self, dts: Seq<nat>) -> SequencerView
        decreases dts.len(),
    {
        if dts.len() == 0 {
            self
        } else {
            self.run(dts.drop_last()).step(dts.last())
        }
    }
}

/// The state before any mission is well formed.
pub proof fn lemma_initial_wf(arm: RobotArm, home: Point, start: Point, goal: Point, speed: u64)
    ensures
        SequencerView::initial(arm, home, start, goal, speed).wf(),
{
}

/// A valid mission begins in a well-formed state.
pub proof fn lemma_mission_begin_wf(
    arm: RobotArm,
    home: Point,
    start: Point,
    goal: Point,
    speed: u64,
)
    requires
        SequencerView::mission_valid(arm, home, start, goal),
    ensures
        SequencerView::mission_begin(arm, home, start, goal, speed).wf(),
{
    lemma_fresh_starts_at_from(home, start, spec_segment_duration(home, start, speed));
}

/// A step leads from a well-formed state to a well-formed state.
pub proof fn lemma_step_wf(s: SequencerView, dt: nat)
    requires
        s.wf(),
    ensures
        s.step(dt).wf(),
{
    lemma_update_monotone(s.traj, dt);
    lemma_fresh_starts_at_from(s.start, s.goal, spec_segment_duration(s.start, s.goal, s.speed));
    lemma_fresh_starts_at_from(s.goal, s.home, spec_segment_duration(s.goal, s.home, s.speed));
    lemma_fresh_starts_at_from(s.home, s.start, spec_segment_duration(s.home, s.start, s.speed));
}

/// Any number of steps leads from a well-formed state to a well-formed
/// state, and leaves the arm of the mission alone.
pub proof fn lemma_run_wf(s: SequencerView, dts: Seq<nat>)
    requires
        s.wf(),
    ensures
        s.run(dts).wf(),
        s.run(dts).arm == s.arm,
    decreases dts.len(),
{
    if dts.len() > 0 {
        lemma_run_wf(s, dts.drop_last());
        lemma_step_wf(s.run(dts.drop_last()), dts.last());
    }
}

/// No leg takes less than the shortest or more than the longest leg time,
/// whatever its length and the speed.
pub proof fn lemma_leg_time_bounded(from: Point, to: Point, speed: u64)
    ensures
        MIN_SEGMENT_DURATION <= spec_segment_duration(from, to, speed) <= MAX_SEGMENT_DURATION,
{
}

/// While the tool is under way, the leg that it is on takes no less than
/// the shortest and no more than the longest leg time, and the time walked
/// on it is less than that.
pub proof fn lemma_leg_under_way_bounded(s: SequencerView)
    requires
        s.wf(),
        s.phase.is_moving(),
    ensures
        MIN_SEGMENT_DURATION <= s.traj.duration <= MAX_SEGMENT_DURATION,
        s.traj.elapsed < s.traj.duration,
{
    lemma_leg_time_bounded(s.traj.from, s.traj.to, s.speed);
}

/// Pausing while the tool is under way changes nothing: a step of no time
/// leaves the phase, the progress of the trajectory, the dwell timer and
/// everything else as they were.
pub proof fn lemma_pause_keeps_state(s: SequencerView)
    requires
        s.wf(),
        s.phase.is_moving(),
    ensures
        s.step(0) == s,
{
    lemma_update_monotone(s.traj, 0);
}

/// Pausing while the tool is under way changes nothing, however many steps
/// the pause lasts.
pub proof fn lemma_pauses_keep_state(s: SequencerView, dts: Seq<nat>)
    requires
        s.wf(),
        s.phase.is_moving(),
        forall|i: int| 0 <= i < dts.len() ==> dts[i] == 0,
    ensures
        s.run(dts) == s,
    decreases dts.len(),
{
    if dts.len() > 0 {
        lemma_pauses_keep_state(s, dts.drop_last());
        lemma_pause_keeps_state(s);
    }
}

/// The point at which the tool stands during the dwell phase `phase`.
pub open spec fn dwell_point(s: SequencerView, phase: Phase) -> Point {
    match phase {
        Phase::PickAtStart => s.start,
        Phase::PlaceAtGoal => s.goal,
        _ => s.home,
    }
}

/// Pausing during a dwell at a reachable point leaves the phase, the dwell
/// timer and the trajectory as they were.
pub proof fn lemma_pause_keeps_dwell(s: SequencerView)
    requires
        s.wf(),
        s.phase.is_dwell(),
        s.arm.reachable(dwell_point(s, s.phase)),
    ensures
        s.step(0).phase == s.phase,
        s.step(0).timer == s.timer,
        s.step(0).traj == s.traj,
{
}

/// Nothing moves in the error phase, whatever time passes.
pub proof fn lemma_error_is_terminal(s: SequencerView, dts: Seq<nat>)
    requires
        s.phase == Phase::Error,
    ensures
        s.run(dts) == s,
    decreases dts.len(),
{
    if dts.len() > 0 {
        lemma_error_is_terminal(s, dts.drop_last());
    }
}

/// A step keeps the phase, goes on to the next phase of the cycle, or ends
/// in the error phase; it never skips a phase and never goes back. The arm,
/// the three points and the speed of the mission stay as they are.
pub proof fn lemma_step_follows_cycle(s: SequencerView, dt: nat)
    ensures
        s.step(dt).phase == s.phase || s.step(dt).phase == s.phase.next() || s.step(dt).phase
            == Phase::Error,
        s.step(dt).arm == s.arm,
        s.step(dt).home == s.home,
        s.step(dt).start == s.start,
        s.step(dt).goal == s.goal,
        s.step(dt).speed == s.speed,
{
}

/// A moving phase ends in the very step in which its trajectory is walked to
/// the end, and not before: if the point where the leg stops is reachable,
/// the next phase is the dwell there, with the timer at zero.
pub proof fn lemma_leg_ends_when_walked(s: SequencerView, dt: nat)
    requires
        s.wf(),
        s.phase.is_moving(),
    ensures
        s.traj.elapsed + dt < s.traj.duration ==> s.step(dt).phase == s.phase || s.step(dt).phase
            == Phase::Error,
        s.traj.elapsed + dt >= s.traj.duration && s.arm.reachable(s.traj.to) ==> s.step(dt).phase
            == s.phase.next(),
        s.traj.elapsed + dt >= s.traj.duration && s.arm.reachable(s.traj.to) ==> s.step(dt).timer
            == 0,
        s.traj.elapsed + dt >= s.traj.duration && s.arm.reachable(s.traj.to) ==> s.step(dt).target
            == s.traj.to,
{
    lemma_update_monotone(s.traj, dt);
}

/// On a leg of which every point can be reached, only the time gone by
/// counts, however it is cut into steps: as long as it falls short of the
/// leg time, the tool is under way at the point reached by then.
pub proof fn lemma_leg_walk(s: SequencerView, dts: Seq<nat>)
    requires
        s.wf(),
        s.phase.is_moving(),
        s.leg_clear(),
        s.traj.elapsed + total(dts) < s.traj.duration,
    ensures
        s.run(dts) == s.under_way_at(s.traj.elapsed + total(dts)),
        s.run(dts).wf(),
    decreases dts.len(),
{
    if dts.len() == 0 {
        assert(s.traj.at(s.traj.elapsed) == s.traj);
    } else {
        let before = dts.drop_last();
        lemma_leg_walk(s, before);
        let t0 = s.traj.elapsed + total(before);
        let t1 = t0 + dts.last();
        let mid = s.under_way_at(t0);
        assert(s.arm.reachable(s.traj.at(t1).position()));
        assert(mid.traj.update(dts.last()) == s.traj.at(t1));
        assert(mid.step(dts.last()) == s.under_way_at(t1));
        lemma_step_wf(mid, dts.last());
    }
}

/// A leg of which every point can be reached ends in the step that brings
/// the time gone by up to the leg time: the next phase begins, the tool
/// stands at the end of the leg, and the dwell timer starts at zero.
pub proof fn lemma_leg_completes(s: SequencerView, dts: Seq<nat>)
    requires
        s.wf(),
        s.phase.is_moving(),
        s.leg_clear(),
        dts.len() > 0,
        s.traj.elapsed + total(dts.drop_last()) < s.traj.duration,
        s.traj.elapsed + total(dts) >= s.traj.duration,
    ensures
        s.run(dts).phase == s.phase.next(),
        s.run(dts).target == s.traj.to,
        s.run(dts).timer == 0,
        s.run(dts).traj.finished,
        s.run(dts).wf(),
{
    let before = dts.drop_last();
    lemma_leg_walk(s, before);
    let mid = s.run(before);
    let end = TrajectoryView { elapsed: s.traj.duration, finished: true, ..s.traj };
    lemma_position_at_end(end);
    assert(end.position() == s.traj.at(s.traj.duration).position());
    assert(s.arm.reachable(s.traj.to));
    lemma_leg_ends_when_walked(mid, dts.last());
    lemma_step_wf(mid, dts.last());
}

/// A dwell at a point that can be reached lasts until the time gone by has
/// come up to its limit, however the time is cut into steps, and ends in
/// the step that brings it there: the next leg begins.
pub proof fn lemma_dwell_completes(s: SequencerView, dts: Seq<nat>)
    requires
        s.wf(),
        s.phase.is_dwell(),
        s.arm.reachable(dwell_point(s, s.phase)),
        dts.len() > 0,
        s.timer + total(dts.drop_last()) < dwell_limit(s.phase),
        s.timer + total(dts) >= dwell_limit(s.phase),
    ensures
        s.run(dts).phase == s.phase.next(),
        s.run(dts).timer == 0,
        s.run(dts).traj.elapsed == 0,
        s.run(dts).traj.from == dwell_point(s, s.phase),
        s.run(dts).ball_state == SequencerView::ball_under_way(s.phase.next()),
        s.run(dts).wf(),
{
    let before = dts.drop_last();
    lemma_dwell_holds(s, before);
    let mid = s.run(before);
    lemma_dwell_ends_when_timed_out(mid, dts.last());
    lemma_step_wf(mid, dts.last());
}

/// As long as the time gone by falls short of its limit, a dwell at a point
/// that can be reached goes on: the phase stays, the timer shows the time
/// gone by, and the mission stays as it is.
pub proof fn lemma_dwell_holds(s: SequencerView, dts: Seq<nat>)
    requires
        s.wf(),
        s.phase.is_dwell(),
        s.arm.reachable(dwell_point(s, s.phase)),
        s.timer + total(dts) < dwell_limit(s.phase),
    ensures
        s.run(dts).phase == s.phase,
        s.run(dts).timer == s.timer + total(dts),
        s.run(dts).traj == s.traj,
        s.run(dts).arm == s.arm,
        s.run(dts).home == s.home,
        s.run(dts).start == s.start,
        s.run(dts).goal == s.goal,
        s.run(dts).speed == s.speed,
        s.run(dts).wf(),
    decreases dts.len(),
{
    if dts.len() > 0 {
        let before = dts.drop_last();
        lemma_dwell_holds(s, before);
        let mid = s.run(before);
        lemma_dwell_ends_when_timed_out(mid, dts.last());
        lemma_step_wf(mid, dts.last());
    }
}

/// A dwell ends in the very step in which its timer runs out, and not
/// before: if the dwell point is reachable, the next leg begins there, not
/// yet walked, and the object changes hands.
pub proof fn lemma_dwell_ends_when_timed_out(s: SequencerView, dt: nat)
    requires
        s.wf(),
        s.phase.is_dwell(),
        s.arm.reachable(dwell_point(s, s.phase)),
    ensures
        s.timer + dt < dwell_limit(s.phase) ==> s.step(dt).phase == s.phase,
        s.timer + dt < dwell_limit(s.phase) ==> s.step(dt).timer == s.timer + dt,
        s.timer + dt >= dwell_limit(s.phase) ==> s.step(dt).phase == s.phase.next(),
        s.timer + dt >= dwell_limit(s.phase) ==> s.step(dt).traj.from == dwell_point(s, s.phase),
        s.timer + dt >= dwell_limit(s.phase) ==> s.step(dt).traj.elapsed == 0,
        s.timer + dt >= dwell_limit(s.phase) ==> s.step(dt).ball_state
            == SequencerView::ball_under_way(s.phase.next()),
{
}

/// The task sequencer. It owns the whole state of a mission: the arm, the
/// three points, the phase, the dwell timer, the trajectory of the current
/// leg, the commanded target with its joint solution, and where the carried
/// object is.
#[derive(Copy, Clone, Debug)]
pub struct Sequencer {
    arm: RobotArm,
    home: Point,
    start: Point,
    goal: Point,
    speed: u64,
    phase: Phase,
    timer: u64,
    ball_state: BallState,
    target_ee: Point,
    qcmd: Option<JointSolution>,
    traj: LinearTrajectory,
    error: Option<IkError>,
}

impl View for Sequencer {
    type V = SequencerView;

    closed spec fn view(&self) -> SequencerView {
        SequencerView {
            arm: self.arm,
            home: self.home,
            start: self.start,
            goal: self.goal,
            speed: self.speed,
            phase: self.phase,
            timer: self.timer as nat,
            ball_state: self.ball_state,
            target: self.target_ee,
            qcmd: self.qcmd,
            traj: self.traj@,
            error: self.error,
        }
    }
}

impl Sequencer {
    #[verifier::type_invariant]
    spec fn inv(&self) -> bool {
        self@.wf()
    }

    /// A sequencer before any mission: it waits at `home`, with the object
    /// at `start`.
    pub fn new(arm: RobotArm, home: Point, start: Point, goal: Point, speed: u64) -> (s: Self)
        ensures
            s@ == SequencerView::initial(arm, home, start, goal, speed),
            s@.wf(),
    {
        Sequencer {
            arm,
            home,
            start,
            goal,
            speed,
            phase: Phase::WaitAtHomeReset,
            timer: 0,
            ball_state: BallState::AtStart,
            target_ee: home,
            qcmd: None,
            traj: LinearTrajectory::default(),
            error: None,
        }
    }

    /// Starts a mission from `home` over `start` to `goal` at `speed`.
    ///
    /// All three points are put to inverse kinematics first. If one of them
    /// cannot be reached, the mission is refused: the error says for each
    /// point why, and the sequencer stays exactly as it was. Otherwise the
    /// tool is commanded to `home`, the object lies at `start`, and the first
    /// leg, from `home` to `start`, begins. A mission may be started in any
    /// phase; it is the one way out of the error phase.
    pub fn start_mission(&mut self, home: Point, start: Point, goal: Point, speed: u64) -> (r:
        Result<(), MissionError>)
        ensures
            r is Ok <==> SequencerView::mission_valid(old(self)@.arm, home, start, goal),
            r is Ok ==> final(self)@ == SequencerView::mission_begin(
                old(self)@.arm,
                home,
                start,
                goal,
                speed,
            ),
            r is Err ==> final(self)@ == old(self)@,
            r matches Err(e) ==> e == SequencerView::refusal(old(self)@.arm, home, start, goal),
            r matches Err(e) ==> e.home is Some || e.start is Some || e.goal is Some,
            final(self)@.wf(),
    {
        proof {
            use_type_invariant(&*self);
        }
        let ik_home = self.arm.solve_ik(home, false);
        let ik_start = self.arm.solve_ik(start, false);
        let ik_goal = self.arm.solve_ik(goal, false);
        if !ik_home.reachable || !ik_start.reachable || !ik_goal.reachable {
            return Err(
                MissionError { home: ik_home.error, start: ik_start.error, goal: ik_goal.error },
            );
        }
        let dur: u64 = segment_duration(home, start, speed);
        let mut traj = self.traj;
        traj.reset(home, start, dur);
        proof {
            lemma_mission_begin_wf(self.arm, home, start, goal, speed);
        }
        *self = Sequencer {
            arm: self.arm,
            home,
            start,
            goal,
            speed,
            phase: Phase::MoveHomeToStart,
            timer: 0,
            ball_state: BallState::AtStart,
            target_ee: home,
            qcmd: Some(ik_home.q),
            traj,
            error: None,
        };
        Ok(())
    }

    /// One simulation step of `dt` microseconds; zero while paused.
    ///
    /// The current phase moves the target: along the trajectory in a moving
    /// phase, held at the dwell point while a timer runs. A phase that has
    /// done its part hands over to the next one. The target is then put to
    /// inverse kinematics; one that cannot be reached ends in the error
    /// phase, where nothing moves any more.
    pub fn step(&mut self, dt: u64)
        ensures
            final(self)@ == old(self)@.step(dt as nat),
            final(self)@.wf(),
    {
        proof {
            use_type_invariant(&*self);
            lemma_step_wf(self@, dt as nat);
        }
        let mut phase: Phase = self.phase;
        let mut timer: u64 = self.timer;
        let mut ball_state: BallState = self.ball_state;
        let mut target: Point = self.target_ee;
        let mut traj: LinearTrajectory = self.traj;
        match self.phase {
            Phase::MoveHomeToStart => {
                ball_state = BallState::AtStart;
                traj.update(dt);
                target = traj.position();
                if traj.finished() {
                    phase = Phase::PickAtStart;
                    timer = 0;
                    target = self.start;
                }
            },
            Phase::PickAtStart => {
                target = self.start;
                if dt >= PICK_DURATION - timer {
                    ball_state = BallState::Attached;
                    timer = 0;
                    let dur: u64 = segment_duration(self.start, self.goal, self.speed);
                    traj.reset(self.start, self.goal, dur);
                    phase = Phase::MoveStartToGoal;
                } else {
                    ball_state = BallState::AtStart;
                    timer = timer + dt;
                }
            },
            Phase::MoveStartToGoal => {
                ball_state = BallState::Attached;
                traj.update(dt);
                target = traj.position();
                if traj.finished() {
                    phase = Phase::PlaceAtGoal;
                    timer = 0;
                    target = self.goal;
                }
            },
            Phase::PlaceAtGoal => {
                target = self.goal;
                if dt >= PLACE_DURATION - timer {
                    ball_state = BallState::AtGoal;
                    timer = 0;
                    let dur: u64 = segment_duration(self.goal, self.home, self.speed);
                    traj.reset(self.goal, self.home, dur);
                    phase = Phase::ReturnGoalToHome;
                } else {
                    ball_state = BallState::Attached;
                    timer = timer + dt;
                }
            },
            Phase::ReturnGoalToHome => {
                ball_state = BallState::AtGoal;
                traj.update(dt);
                target = traj.position();
                if traj.finished() {
                    phase = Phase::WaitAtHomeReset;
                    timer = 0;
                    target = self.home;
                }
            },
            Phase::WaitAtHomeReset => {
                target = self.home;
                if dt >= RESET_WAIT - timer {
                    ball_state = BallState::AtStart;
                    timer = 0;
                    let dur: u64 = segment_duration(self.home, self.start, self.speed);
                    traj.reset(self.home, self.start, dur);
                    phase = Phase::MoveHomeToStart;
                } else {
                    ball_state = BallState::AtGoal;
                    timer = timer + dt;
                }
            },
            Phase::Error => {
                return ;
            },
        }
        let ik = self.arm.solve_ik(target, false);
        let mut qcmd: Option<JointSolution> = self.qcmd;
        let mut error: Option<IkError> = self.error;
        if ik.reachable {
            qcmd = Some(ik.q);
        } else {
            phase = Phase::Error;
            error = ik.error;
        }
        *self = Sequencer {
            arm: self.arm,
            home: self.home,
            start: self.start,
            goal: self.goal,
            speed: self.speed,
            phase,
            timer,
            ball_state,
            target_ee: target,
            qcmd,
            traj,
            error,
        };
    }

    /// The phase that is active.
    pub fn phase(&self) -> (r: Phase)
        ensures
            r == self@.phase,
    {
        self.phase
    }

    /// Where the carried object is.
    pub fn ball_state(&self) -> (r: BallState)
        ensures
            r == self@.ball_state,
    {
        self.ball_state
    }

    /// The point where the object lies while it is not carried: the start
    /// point or the goal point. While it is attached it follows the tool,
    /// and there is no such point.
    pub fn resting_place(&self) -> (r: Option<Point>)
        ensures
            r == self@.resting_place(),
    {
        match self.ball_state {
            BallState::AtStart => Some(self.start),
            BallState::AtGoal => Some(self.goal),
            BallState::Attached => None,
        }
    }

    /// The point that the tool is commanded to.
    pub fn target(&self) -> (r: Point)
        ensures
            r == self@.target,
    {
        self.target_ee
    }

    /// The joint solution of the last target that was reachable; none
    /// before the first.
    pub fn commanded(&self) -> (r: Option<JointSolution>)
        ensures
            r == self@.qcmd,
    {
        self.qcmd
    }

    /// The reason for the error phase; none in every other phase.
    pub fn error(&self) -> (r: Option<IkError>)
        ensures
            r == self@.error,
            r is Some <==> self@.phase == Phase::Error,
    {
        proof {
            use_type_invariant(self);
        }
        self.error
    }

    /// The reason for the error phase in words.
    pub fn error_message(&self) -> (r: Option<String>)
        ensures
            r is Some <==> self@.phase == Phase::Error,
            r matches Some(m) ==> self@.error matches Some(e) && m@ == e.spec_message(),
    {
        proof {
            use_type_invariant(self);
        }
        match &self.error {
            Some(e) => Some(e.message()),
            None => None,
        }
    }

    /// Microseconds spent in the current dwell.
    pub fn timer(&self) -> (r: u64)
        ensures
            r == self@.timer,
    {
        self.timer
    }

    /// The trajectory of the current leg.
    pub fn trajectory(&self) -> (r: &LinearTrajectory)
        ensures
            r@ == self@.traj,
    {
        &self.traj
    }

    /// The arm of the mission.
    pub fn arm(&self) -> (r: &RobotArm)
        ensures
            *r == self@.arm,
    {
        &self.arm
    }

    /// The home point of the mission.
    pub fn home(&self) -> (r: Point)
        ensures
            r == self@.home,
    {
        self.home
    }

    /// The start point of the mission, where the object is picked.
    pub fn start(&self) -> (r: Point)
        ensures
            r == self@.start,
    {
        self.start
    }

    /// The goal point of the mission, where the object is placed.
    pub fn goal(&self) -> (r: Point)
        ensures
            r == self@.goal,
    {
        self.goal
    }

    /// Tool speed along a leg, micrometres per second.
    pub fn speed(&self) -> (r: u64)
        ensures
            r == self@.speed,
    {
        self.speed
    }
}

} // verus!
