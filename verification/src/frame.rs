//! Frame pacing: real time comes in, whole simulation steps come out.

use vstd::prelude::*;
use crate::input::{Input, InputState};

verus! {

/// Length of one simulation step in nanoseconds: sixteen milliseconds.
pub const STEP_NANOS: u64 = 16_000_000;

/// The whole simulation steps that `nanos` nanoseconds hold.
pub open spec fn steps_in(nanos: int) -> int {
    nanos / (STEP_NANOS as int)
}

/// What is left of `nanos` nanoseconds once the whole steps are taken out.
pub open spec fn rest_of(nanos: int) -> int {
    nanos % (STEP_NANOS as int)
}

/// The time that has passed on the wall clock but has not been simulated yet.
///
/// Between two frames this is always less than one step.
pub struct FrameClock {
    lag: u64,
}

impl FrameClock {
    #[verifier::type_invariant]
    spec fn in_step(self) -> bool {
        self.lag < STEP_NANOS
    }

    /// The unsimulated time in nanoseconds.
    pub closed spec fn lag_nanos(self) -> nat {
        self.lag as nat
    }

    /// What every clock satisfies: less than one step is owed.
    pub open spec fn wf(self) -> bool {
        self.lag_nanos() < STEP_NANOS
    }

    /// A clock that owes nothing.
    pub fn new() -> (clock: FrameClock)
        ensures
            clock.lag_nanos() == 0,
            clock.wf(),
    {
        FrameClock { lag: 0 }
    }

    /// The unsimulated time in nanoseconds.
    pub fn lag(&self) -> (nanos: u64)
        ensures
            nanos == self.lag_nanos(),
            nanos < STEP_NANOS,
    {
        proof {
            use_type_invariant(self);
        }
        self.lag
    }

    /// Adds `elapsed_nanos` of wall-clock time and takes out as many whole
    /// steps as the total holds. Returns that number; the rest stays owed.
    pub fn advance(&mut self, elapsed_nanos: u64) -> (steps: u64)
        ensures
            steps == steps_in(old(self).lag_nanos() + elapsed_nanos),
            final(self).lag_nanos() == rest_of(old(self).lag_nanos() + elapsed_nanos),
            final(self).wf(),
    {
        proof {
            use_type_invariant(&*self);
        }
        let whole: u64 = elapsed_nanos / STEP_NANOS;
        let rest: u64 = elapsed_nanos % STEP_NANOS;
        let owed: u64 = self.lag + rest;
        if owed >= STEP_NANOS {
            self.lag = owed - STEP_NANOS;
            whole + 1
        } else {
            self.lag = owed;
            whole
        }
    }
}

/// The distance the camera covers in a second of simulated time.
pub const SPEED: u64 = 5;

/// The length of one displacement in thousandths of a unit: the speed times
/// the milliseconds of a step.
pub open spec fn move_length_thousandths() -> int {
    SPEED * (STEP_NANOS / 1_000_000)
}

/// The length of one displacement in thousandths of a unit: eighty.
pub fn move_length() -> (thousandths: u64)
    ensures
        thousandths == move_length_thousandths(),
        thousandths == 80,
{
    SPEED * (STEP_NANOS / 1_000_000)
}

/// One displacement of the camera, [`move_length`] long.
#[derive(Clone, Copy, Debug, PartialEq, Eq, Structural)]
pub enum Move {
    /// Along the direction the camera looks in.
    Forward,
    /// Against it.
    Backward,
    /// Sideways, against the normalised cross product of the look direction
    /// and the world's up axis.
    Left,
    /// Sideways, along that cross product.
    Right,
}

/// The displacements one simulation step makes, in the order it makes them:
/// forward, backward, left, right, each only where its flag is up.
///
/// Opposite flags do not cancel here: both displacements are listed, and the
/// position takes them one after the other.
pub open spec fn moves_of(state: InputState) -> Seq<Move> {
    let forward = if state.up { seq![Move::Forward] } else { Seq::<Move>::empty() };
    let backward = if state.down { seq![Move::Backward] } else { Seq::<Move>::empty() };
    let left = if state.left { seq![Move::Left] } else { Seq::<Move>::empty() };
    let right = if state.right { seq![Move::Right] } else { Seq::<Move>::empty() };
    forward + backward + left + right
}

/// What the program does with one frame.
#[derive(Debug)]
pub struct FramePlan {
    /// How many simulation steps to run before drawing.
    pub steps: u64,
    /// The displacements to apply to the camera in each of those steps.
    pub moves: Vec<Move>,
    /// Whether to go on to another frame after this one.
    pub running: bool,
}

/// The displacements one simulation step makes under `input`.
pub fn moves(input: &Input) -> (list: Vec<Move>)
    ensures
        list@ == moves_of(input@),
{
    let mut list: Vec<Move> = Vec::new();
    if input.up() {
        list.push(Move::Forward);
    }
    if input.down() {
        list.push(Move::Backward);
    }
    if input.left() {
        list.push(Move::Left);
    }
    if input.right() {
        list.push(Move::Right);
    }
    assert(list@ =~= moves_of(input@));
    list
}

/// Plans the frame that starts `elapsed_nanos` after the one before.
///
/// The clock takes the time and gives the number of steps. The quit flag is
/// looked at inside a step, so it ends the run only in a frame that has at
/// least one.
pub fn plan_frame(clock: &mut FrameClock, input: &Input, elapsed_nanos: u64) -> (plan: FramePlan)
    ensures
        plan.steps == steps_in(old(clock).lag_nanos() + elapsed_nanos),
        final(clock).lag_nanos() == rest_of(old(clock).lag_nanos() + elapsed_nanos),
        final(clock).wf(),
        plan.moves@ == moves_of(input@),
        plan.running <==> !(input@.close && plan.steps > 0),
{
    let steps = clock.advance(elapsed_nanos);
    let list = moves(input);
    FramePlan { steps, moves: list, running: !(input.close() && steps > 0) }
}

/// With no direction asked for, a step moves the camera nowhere.
pub proof fn lemma_idle_makes_no_move(state: InputState)
    requires
        !state.up,
        !state.down,
        !state.left,
        !state.right,
    ensures
        moves_of(state) == Seq::<Move>::empty(),
{
    assert(moves_of(state) =~= Seq::<Move>::empty());
}

/// With forward alone asked for, a step makes the forward displacement and
/// no other.
pub proof fn lemma_forward_alone(state: InputState)
    requires
        state.up,
        !state.down,
        !state.left,
        !state.right,
    ensures
        moves_of(state) == seq![Move::Forward],
{
    assert(moves_of(state) =~= seq![Move::Forward]);
}

/// Time is neither lost nor made: the steps taken and the time still owed
/// add up to the time there was, and less than one step stays owed.
pub proof fn lemma_time_is_kept(nanos: int)
    requires
        nanos >= 0,
    ensures
        steps_in(nanos) * STEP_NANOS + rest_of(nanos) == nanos,
        0 <= rest_of(nanos) < STEP_NANOS,
        steps_in(nanos) >= 0,
{
}

/// The frame rate does not change how far the simulation gets: a stretch of
/// time that reaches the clock in two parts yields as many steps, and leaves
/// as much owed, as the same stretch in one part.
pub proof fn lemma_split_time(owed: int, first: int, second: int)
    requires
        owed >= 0,
        first >= 0,
        second >= 0,
    ensures
        steps_in(owed + first) + steps_in(rest_of(owed + first) + second) == steps_in(owed + first + second),
        rest_of(rest_of(owed + first) + second) == rest_of(owed + first + second),
{
}

} // verus!
