//! What the window reports, and what each report does to the [`Input`].

use vstd::prelude::*;
use crate::binary32::Binary32;
use crate::input::{Input, InputState, lemma_with_pitch_in_range};

verus! {

/// The keys the viewer listens to.
#[derive(Clone, Copy, Debug, PartialEq, Eq, Structural)]
pub enum Key {
    /// Move forward.
    W,
    /// Move backward.
    S,
    /// Move to the left.
    A,
    /// Move to the right.
    D,
    /// Quit.
    Escape,
    /// Any key the viewer has no use for, and a key press that names no key.
    Other,
}

/// One report from the window.
#[derive(Clone, Copy, Debug)]
pub enum Event {
    /// The player asked the window to close.
    CloseRequested,
    /// The window has a new size.
    Resized,
    /// A key went down (`pressed`) or came up.
    Key { key: Key, pressed: bool },
    /// The pointer moved. `yaw` and `pitch` are the angles the motion leads
    /// to, in degrees, before any limit is applied.
    Turned { yaw: Binary32, pitch: Binary32 },
    /// Anything else.
    Other,
}

/// What the program has to do to the window after an event.
#[derive(Clone, Copy, Debug, PartialEq, Eq, Structural)]
pub enum Reaction {
    /// Nothing.
    Nothing,
    /// Fit the drawing surface to the window's new size.
    FitSurface,
}

impl Event {
    /// What has to be done to the window after this event: a new surface
    /// size for a resize, nothing for all others.
    pub open spec fn reaction(self) -> Reaction {
        match self {
            Event::Resized => Reaction::FitSurface,
            _ => Reaction::Nothing,
        }
    }
}

impl InputState {
    /// The state after `event`.
    ///
    /// A close request and a press of Escape raise the quit flag, and nothing
    /// lowers it again. W, S, A and D raise their flag when they go down and
    /// lower it when they come up. A turn stores the yaw as it comes and the
    /// pitch within its limits, or leaves the pitch where the turn names
    /// none. Everything else leaves the state alone.
    pub open spec fn after(self, event: Event) -> InputState {
        match event {
            Event::CloseRequested => InputState { close: true, ..self },
            Event::Key { key: Key::W, pressed } => InputState { up: pressed, ..self },
            Event::Key { key: Key::S, pressed } => InputState { down: pressed, ..self },
            Event::Key { key: Key::A, pressed } => InputState { left: pressed, ..self },
            Event::Key { key: Key::D, pressed } => InputState { right: pressed, ..self },
            Event::Key { key: Key::Escape, pressed: true } => InputState { close: true, ..self },
            Event::Turned { yaw, pitch } => (InputState { yaw: yaw, ..self }).with_pitch(pitch),
            _ => self,
        }
    }

    /// The state after each of `events`, in order.
    pub open spec fn after_all(self, events: Seq<Event>) -> InputState
        decreases events.len(),
    {
        if events.len() == 0 {
            self
        } else {
            self.after_all(events.drop_last()).after(events.last())
        }
    }
}

/// Takes one event into `input` and says what the window needs in turn.
pub fn process_event(input: &mut Input, event: Event) -> (reaction: Reaction)
    ensures
        final(input)@ == old(input)@.after(event),
        final(input)@.wf(),
        reaction == event.reaction(),
{
    proof {
        use_type_invariant(&*input);
    }
    match event {
        Event::CloseRequested => {
            input.set_close(true);
            Reaction::Nothing
        },
        Event::Resized => Reaction::FitSurface,
        Event::Key { key, pressed } => {
            match key {
                Key::W => input.set_up(pressed),
                Key::S => input.set_down(pressed),
                Key::A => input.set_left(pressed),
                Key::D => input.set_right(pressed),
                Key::Escape => {
                    if pressed {
                        input.set_close(true);
                    }
                },
                Key::Other => {},
            }
            Reaction::Nothing
        },
        Event::Turned { yaw, pitch } => {
            input.set_yaw(yaw);
            input.set_pitch(pitch);
            Reaction::Nothing
        },
        Event::Other => Reaction::Nothing,
    }
}

/// Takes a run of events into `input`, first to last, and says whether one
/// of them asks for the drawing surface to be fitted to the window.
pub fn process_input(input: &mut Input, events: &Vec<Event>) -> (fit: bool)
    ensures
        final(input)@ == old(input)@.after_all(events@),
        fit <==> exists|i: int| 0 <= i < events.len() && (#[trigger] events[i]).reaction() == Reaction::FitSurface,
{
    let mut fit = false;
    let mut n: usize = 0;
    while n < events.len()
        invariant
            n <= events.len(),
            input@ == old(input)@.after_all(events@.take(n as int)),
            fit <==> exists|i: int| 0 <= i < n && (#[trigger] events[i]).reaction() == Reaction::FitSurface,
        decreases events.len() - n,
    {
        proof {
            assert(events@.take(n + 1).drop_last() == events@.take(n as int));
        }
        let reaction = process_event(input, events[n]);
        if reaction == Reaction::FitSurface {
            fit = true;
        }
        n += 1;
    }
    proof {
        assert(events@.take(n as int) == events@);
    }
    fit
}

/// Whatever the event, a pitch from -89 to 89 stays one.
pub proof fn lemma_event_keeps_pitch(state: InputState, event: Event)
    requires
        state.wf(),
    ensures
        state.after(event).wf(),
{
    match event {
        Event::Turned { yaw, pitch } => {
            lemma_with_pitch_in_range(InputState { yaw: yaw, ..state }, pitch);
        },
        _ => {},
    }
}

/// Whatever the window reports and in whatever order, the pitch stays a
/// number from -89 to 89.
pub proof fn lemma_pitch_always_in_range(start: InputState, events: Seq<Event>)
    requires
        start.wf(),
    ensures
        start.after_all(events).wf(),
    decreases events.len(),
{
    if events.len() > 0 {
        lemma_pitch_always_in_range(start, events.drop_last());
        lemma_event_keeps_pitch(start.after_all(events.drop_last()), events.last());
    }
}

} // verus!
