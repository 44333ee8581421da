//! What the player has asked for: which way to move, whether to quit, and
//! where the camera looks.

use vstd::prelude::*;
use crate::binary32::{Binary32, lemma_whole_number};
use vstd::arithmetic::power2::{pow2, lemma2_to64};

verus! {

/// Bit pattern of -89.0, the lowest pitch the camera takes.
pub const MIN_PITCH_BITS: u32 = 0xC2B2_0000;

/// Bit pattern of 89.0, the highest pitch the camera takes.
pub const MAX_PITCH_BITS: u32 = 0x42B2_0000;

/// Bit pattern of -90.0, the yaw the camera starts with: it looks down the
/// negative z axis.
pub const START_YAW_BITS: u32 = 0xC2B4_0000;

/// Bit pattern of 45.0, the field of view the camera starts with.
pub const START_FOV_BITS: u32 = 0x4234_0000;

/// The lowest pitch, -89 degrees.
pub open spec fn min_pitch() -> Binary32 {
    Binary32 { bits: MIN_PITCH_BITS }
}

/// The highest pitch, 89 degrees.
pub open spec fn max_pitch() -> Binary32 {
    Binary32 { bits: MAX_PITCH_BITS }
}

/// The number `value` brought within the limits: `value` itself where it
/// lies between the two, else the limit it went past.
pub open spec fn clamp_pitch(value: Binary32) -> Binary32 {
    if value.lt(min_pitch()) {
        min_pitch()
    } else if max_pitch().lt(value) {
        max_pitch()
    } else {
        value
    }
}

/// One call of a setter of [`Input`], with what it was handed.
pub ghost enum Change {
    Up(bool),
    Down(bool),
    Left(bool),
    Right(bool),
    Close(bool),
    Yaw(Binary32),
    Pitch(Binary32),
    Fov(Binary32),
}

/// The values an [`Input`] holds. Angles are in degrees.
pub struct InputState {
    pub up: bool,
    pub down: bool,
    pub left: bool,
    pub right: bool,
    pub close: bool,
    pub yaw: Binary32,
    pub pitch: Binary32,
    pub fov: Binary32,
}

impl InputState {
    /// The state a new [`Input`] starts in: nothing pressed, looking level
    /// down the negative z axis.
    pub open spec fn start() -> InputState {
        InputState {
            up: false,
            down: false,
            left: false,
            right: false,
            close: false,
            yaw: Binary32 { bits: START_YAW_BITS },
            pitch: Binary32 { bits: 0 },
            fov: Binary32 { bits: START_FOV_BITS },
        }
    }

    /// What holds of the state of every [`Input`]: the pitch is a number
    /// from -89 to 89.
    pub open spec fn wf(self) -> bool {
        self.pitch.within(-89, 89)
    }

    /// The state after `value` was asked for as the pitch. A number is
    /// stored, brought within the limits. A NaN names no angle: the pitch
    /// stays what it was.
    pub open spec fn with_pitch(self, value: Binary32) -> InputState {
        if value.spec_is_nan() {
            self
        } else {
            InputState { pitch: clamp_pitch(value), ..self }
        }
    }

    /// The state after one call of a setter.
    pub open spec fn changed(self, change: Change) -> InputState {
        match change {
            Change::Up(pressed) => InputState { up: pressed, ..self },
            Change::Down(pressed) => InputState { down: pressed, ..self },
            Change::Left(pressed) => InputState { left: pressed, ..self },
            Change::Right(pressed) => InputState { right: pressed, ..self },
            Change::Close(pressed) => InputState { close: pressed, ..self },
            Change::Yaw(value) => InputState { yaw: value, ..self },
            Change::Pitch(value) => self.with_pitch(value),
            Change::Fov(value) => InputState { fov: value, ..self },
        }
    }

    /// The state after each of `changes`, in order.
    pub open spec fn changed_by(self, changes: Seq<Change>) -> InputState
        decreases changes.len(),
    {
        if changes.len() == 0 {
            self
        } else {
            self.changed_by(changes.drop_last()).changed(changes.last())
        }
    }

    /// The state after each of `values` was asked for as the pitch, in order.
    pub open spec fn with_pitches(self, values: Seq<Binary32>) -> InputState
        decreases values.len(),
    {
        if values.len() == 0 {
            self
        } else {
            self.with_pitches(values.drop_last()).with_pitch(values.last())
        }
    }
}

/// The player's standing requests. Keys set and clear the five flags, the
/// pointer turns the camera. The pitch is kept between -89 and 89 degrees so
/// that the view never tips over the vertical.
#[derive(Clone, Copy, Debug)]
pub struct Input {
    up: bool,
    down: bool,
    left: bool,
    right: bool,
    close: bool,
    yaw: Binary32,
    pitch: Binary32,
    fov: Binary32,
}

impl View for Input {
    type V = InputState;

    closed spec fn view(&self) -> InputState {
        InputState {
            up: self.up,
            down: self.down,
            left: self.left,
            right: self.right,
            close: self.close,
            yaw: self.yaw,
            pitch: self.pitch,
            fov: self.fov,
        }
    }
}

impl Input {
    #[verifier::type_invariant]
    pub open spec fn pitch_kept(self) -> bool {
        self@.wf()
    }

    /// Nothing pressed, yaw -90, pitch 0, field of view 45.
    pub fn new() -> (input: Input)
        ensures
            input@ == InputState::start(),
            input@.wf(),
    {
        proof {
            lemma_start_in_range();
        }
        Input {
            up: false,
            down: false,
            left: false,
            right: false,
            close: false,
            yaw: Binary32::from_bits(START_YAW_BITS),
            pitch: Binary32::from_bits(0),
            fov: Binary32::from_bits(START_FOV_BITS),
        }
    }

    /// Whether moving forward is asked for.
    pub fn up(&self) -> (pressed: bool)
        ensures
            pressed == self@.up,
    {
        self.up
    }

    /// Raises or lowers the request to move forward.
    pub fn set_up(&mut self, pressed: bool)
        ensures
            final(self)@ == (InputState { up: pressed, ..old(self)@ }),
            final(self)@ == old(self)@.changed(Change::Up(pressed)),
            final(self)@.wf(),
    {
        proof {
            use_type_invariant(&*self);
        }
        self.up = pressed;
    }

    /// Whether moving backward is asked for.
    pub fn down(&self) -> (pressed: bool)
        ensures
            pressed == self@.down,
    {
        self.down
    }

    /// Raises or lowers the request to move backward.
    pub fn set_down(&mut self, pressed: bool)
        ensures
            final(self)@ == (InputState { down: pressed, ..old(self)@ }),
            final(self)@ == old(self)@.changed(Change::Down(pressed)),
            final(self)@.wf(),
    {
        proof {
            use_type_invariant(&*self);
        }
        self.down = pressed;
    }

    /// Whether moving to the left is asked for.
    pub fn left(&self) -> (pressed: bool)
        ensures
            pressed == self@.left,
    {
        self.left
    }

    /// Raises or lowers the request to move to the left.
    pub fn set_left(&mut self, pressed: bool)
        ensures
            final(self)@ == (InputState { left: pressed, ..old(self)@ }),
            final(self)@ == old(self)@.changed(Change::Left(pressed)),
            final(self)@.wf(),
    {
        proof {
            use_type_invariant(&*self);
        }
        self.left = pressed;
    }

    /// Whether moving to the right is asked for.
    pub fn right(&self) -> (pressed: bool)
        ensures
            pressed == self@.right,
    {
        self.right
    }

    /// Raises or lowers the request to move to the right.
    pub fn set_right(&mut self, pressed: bool)
        ensures
            final(self)@ == (InputState { right: pressed, ..old(self)@ }),
            final(self)@ == old(self)@.changed(Change::Right(pressed)),
            final(self)@.wf(),
    {
        proof {
            use_type_invariant(&*self);
        }
        self.right = pressed;
    }

    /// Whether the player has asked to quit.
    pub fn close(&self) -> (pressed: bool)
        ensures
            pressed == self@.close,
    {
        self.close
    }

    /// Raises or lowers the request to quit.
    pub fn set_close(&mut self, pressed: bool)
        ensures
            final(self)@ == (InputState { close: pressed, ..old(self)@ }),
            final(self)@ == old(self)@.changed(Change::Close(pressed)),
            final(self)@.wf(),
    {
        proof {
            use_type_invariant(&*self);
        }
        self.close = pressed;
    }

    /// The horizontal look angle in degrees.
    pub fn yaw(&self) -> (value: Binary32)
        ensures
            value == self@.yaw,
    {
        self.yaw
    }

    /// Stores `value` as the yaw, whatever it is.
    pub fn set_yaw(&mut self, value: Binary32)
        ensures
            final(self)@ == (InputState { yaw: value, ..old(self)@ }),
            final(self)@ == old(self)@.changed(Change::Yaw(value)),
            final(self)@.wf(),
    {
        proof {
            use_type_invariant(&*self);
        }
        self.yaw = value;
    }

    /// The vertical look angle in degrees: always a number from -89 to 89.
    pub fn pitch(&self) -> (value: Binary32)
        ensures
            value == self@.pitch,
            value.within(-89, 89),
    {
        proof {
            use_type_invariant(self);
        }
        self.pitch
    }

    /// Stores `value` as the pitch, brought back to the nearer limit where it
    /// lies below -89 or above 89. A NaN is not stored: the pitch stays what
    /// it was.
    pub fn set_pitch(&mut self, value: Binary32)
        ensures
            final(self)@ == old(self)@.with_pitch(value),
            final(self)@ == old(self)@.changed(Change::Pitch(value)),
            final(self)@.pitch.within(-89, 89),
    {
        proof {
            use_type_invariant(&*self);
            if !value.spec_is_nan() {
                lemma_clamp_pitch(value);
            }
        }
        let low = Binary32::from_bits(MIN_PITCH_BITS);
        let high = Binary32::from_bits(MAX_PITCH_BITS);
        if value.is_nan() {
        } else if value.less_than(low) {
            self.pitch = low;
        } else if high.less_than(value) {
            self.pitch = high;
        } else {
            self.pitch = value;
        }
    }

    /// The field of view in degrees.
    pub fn fov(&self) -> (value: Binary32)
        ensures
            value == self@.fov,
    {
        self.fov
    }

    /// Stores `value` as the field of view, whatever it is.
    pub fn set_fov(&mut self, value: Binary32)
        ensures
            final(self)@ == (InputState { fov: value, ..old(self)@ }),
            final(self)@ == old(self)@.changed(Change::Fov(value)),
            final(self)@.wf(),
    {
        proof {
            use_type_invariant(&*self);
        }
        self.fov = value;
    }
}

/// The two limit patterns encode the numbers -89 and 89.
pub proof fn lemma_pitch_limits()
    ensures
        !min_pitch().spec_is_nan(),
        !max_pitch().spec_is_nan(),
        min_pitch().scaled() == -89 * pow2(149),
        max_pitch().scaled() == 89 * pow2(149),
        pow2(149) > 0,
{
    lemma2_to64();
    // 89 = 64 + 25, and 25 * 2^17 is the fraction field 0x32_0000.
    lemma_whole_number(min_pitch(), 89, 6);
    lemma_whole_number(max_pitch(), 89, 6);
    vstd::arithmetic::power2::lemma_pow2_pos(149);
}

/// What [`clamp_pitch`] makes of a number: one inside the limits is left
/// as it is, any other becomes the limit on its side.
pub proof fn lemma_clamp_pitch(value: Binary32)
    requires
        !value.spec_is_nan(),
    ensures
        clamp_pitch(value).within(-89, 89),
        value.within(-89, 89) ==> clamp_pitch(value) == value,
        value.scaled() < -89 * pow2(149) ==> clamp_pitch(value) == min_pitch(),
        value.scaled() > 89 * pow2(149) ==> clamp_pitch(value) == max_pitch(),
{
    lemma_pitch_limits();
}

/// Asking for the same pitch twice leaves what asking for it once leaves.
pub proof fn lemma_with_pitch_twice(state: InputState, value: Binary32)
    ensures
        state.with_pitch(value).with_pitch(value) == state.with_pitch(value),
{
    lemma_pitch_limits();
}

/// Whatever pitch is asked for, the pitch that is stored afterwards is a
/// number from -89 to 89.
pub proof fn lemma_with_pitch_in_range(state: InputState, value: Binary32)
    requires
        state.wf(),
    ensures
        state.with_pitch(value).wf(),
{
    if !value.spec_is_nan() {
        lemma_clamp_pitch(value);
    }
}

/// However many pitches are asked for, one after the other, and whatever
/// they are, the pitch that is stored in the end is a number from -89 to 89.
pub proof fn lemma_pitch_stays_in_range(start: InputState, values: Seq<Binary32>)
    requires
        start.wf(),
    ensures
        start.with_pitches(values).wf(),
    decreases values.len(),
{
    if values.len() > 0 {
        lemma_pitch_stays_in_range(start, values.drop_last());
        lemma_with_pitch_in_range(start.with_pitches(values.drop_last()), values.last());
    }
}

/// The state a new input starts in has its pitch in range.
pub proof fn lemma_start_in_range()
    ensures
        InputState::start().wf(),
{
    let level = Binary32 { bits: 0 };
    lemma_pitch_limits();
    assert(level.magnitude() == 0);
    assert(level.within(-89, 89)) by (nonlinear_arith)
        requires
            level.scaled() == 0,
            !level.spec_is_nan(),
            pow2(149) > 0,
    ;
}

/// Whatever setters are called on a new input, in whatever order and with
/// whatever values, the pitch is a number from -89 to 89 after every call.
pub proof fn lemma_setters_keep_pitch_in_range(changes: Seq<Change>)
    ensures
        InputState::start().changed_by(changes).wf(),
    decreases changes.len(),
{
    if changes.len() == 0 {
        lemma_start_in_range();
    } else {
        lemma_setters_keep_pitch_in_range(changes.drop_last());
        let before = InputState::start().changed_by(changes.drop_last());
        match changes.last() {
            Change::Pitch(value) => lemma_with_pitch_in_range(before, value),
            _ => {},
        }
    }
}

} // verus!
