use vstd::prelude::*;
use crate::clock::current_time;
use crate::render::{TimeOfDay, clock_commands, time_commands};
use crate::segment::DigitOrientation;

verus! {

/// Register of the controller that holds the brightness.
pub const INTENSITY_REGISTER: u8 = 0xA;
/// Number of brightness levels; the level wraps round after the last.
pub const INTENSITY_LEVELS: u8 = 16;
/// The button that turns the picture upside down.
pub const ORIENTATION_BUTTON: u8 = 1;
/// The button that steps the brightness.
pub const BRIGHTNESS_BUTTON: u8 = 2;

/// An event for the clock: a new second began, or a button was pressed.
#[derive(Clone, Copy, Debug, PartialEq, Eq, Structural)]
pub enum MainMessage {
    TimeSignal,
    ButtonChange(u8),
}

/// What the clock remembers between events.
#[derive(Clone, Copy, Debug, PartialEq, Eq, Structural)]
pub struct ClockState {
    pub orientation: DigitOrientation,
    pub intensity: u8,
}

/// The other orientation.
pub open spec fn toggled(o: DigitOrientation) -> DigitOrientation {
    match o {
        DigitOrientation::Normal => DigitOrientation::Inverted,
        DigitOrientation::Inverted => DigitOrientation::Normal,
    }
}

/// The controller's start-up sequence: raw segment mode on all digits,
/// the brightness, all eight digits scanned, out of shutdown, test off.
pub open spec fn startup_sequence(intensity: u8) -> Seq<(u8, u8)> {
    seq![(0x9u8, 0x00u8), (INTENSITY_REGISTER, intensity), (0xBu8, 0x7u8), (0xCu8, 0x1u8), (0xFu8, 0x0u8)]
}

/// The state after `msg`.
pub open spec fn next_state(s: ClockState, msg: MainMessage) -> ClockState {
    match msg {
        MainMessage::TimeSignal => s,
        MainMessage::ButtonChange(id) => if id == ORIENTATION_BUTTON {
            ClockState { orientation: toggled(s.orientation), ..s }
        } else if id == BRIGHTNESS_BUTTON {
            ClockState { intensity: ((s.intensity + 1) % (INTENSITY_LEVELS as int)) as u8, ..s }
        } else {
            s
        },
    }
}

/// The commands submitted in reaction to `msg` from state `s` when the
/// local time is `t`: a tick shows the time; the orientation button shows
/// it at once in the new orientation; the brightness button writes the
/// new level alone; any other button does nothing.
pub open spec fn reaction(s: ClockState, msg: MainMessage, t: TimeOfDay) -> Seq<(u8, u8)> {
    match msg {
        MainMessage::TimeSignal => clock_commands(t, s.orientation),
        MainMessage::ButtonChange(id) => if id == ORIENTATION_BUTTON {
            clock_commands(t, next_state(s, msg).orientation)
        } else if id == BRIGHTNESS_BUTTON {
            seq![(INTENSITY_REGISTER, next_state(s, msg).intensity)]
        } else {
            seq![]
        },
    }
}

impl ClockState {
    /// The brightness is a level the controller has.
    pub open spec fn wf(&self) -> bool {
        self.intensity < INTENSITY_LEVELS
    }

    /// A clock that starts in `orientation` at brightness `intensity`.
    pub fn new(orientation: DigitOrientation, intensity: u8) -> (r: ClockState)
        requires
            intensity < INTENSITY_LEVELS,
        ensures
            r.wf(),
            r.orientation == orientation,
            r.intensity == intensity,
    {
        ClockState { orientation, intensity }
    }

    /// The commands that prepare the controller, to be submitted before
    /// anything is shown.
    pub fn startup_commands(&self) -> (r: Vec<(u8, u8)>)
        ensures
            r@ == startup_sequence(self.intensity),
    {
        let r = vec![(0x9u8, 0x00u8), (INTENSITY_REGISTER, self.intensity), (0xBu8, 0x7u8), (0xCu8, 0x1u8), (0xFu8, 0x0u8)];
        assert(r@ =~= startup_sequence(self.intensity));
        r
    }

    /// Reacts to `msg` when the local time is `now`: updates the state and
    /// returns the commands to submit, in order.
    pub fn handle(&mut self, msg: MainMessage, now: &TimeOfDay) -> (r: Vec<(u8, u8)>)
        requires
            old(self).wf(),
        ensures
            final(self).wf(),
            *final(self) == next_state(*old(self), msg),
            r@ == reaction(*old(self), msg, *now),
    {
        match msg {
            MainMessage::TimeSignal => time_commands(now, self.orientation),
            MainMessage::ButtonChange(id) => {
                if id == ORIENTATION_BUTTON {
                    self.orientation = match self.orientation {
                        DigitOrientation::Normal => DigitOrientation::Inverted,
                        DigitOrientation::Inverted => DigitOrientation::Normal,
                    };
                    time_commands(now, self.orientation)
                } else if id == BRIGHTNESS_BUTTON {
                    self.intensity = (self.intensity + 1) % INTENSITY_LEVELS;
                    let r = vec![(INTENSITY_REGISTER, self.intensity)];
                    assert(r@ =~= reaction(*old(self), msg, *now));
                    r
                } else {
                    let r: Vec<(u8, u8)> = Vec::new();
                    assert(r@ =~= reaction(*old(self), msg, *now));
                    r
                }
            },
        }
    }

    /// Reacts to `msg` at the current local time.
    pub fn handle_now(&mut self, msg: MainMessage) -> (r: Vec<(u8, u8)>)
        requires
            old(self).wf(),
        ensures
            final(self).wf(),
            *final(self) == next_state(*old(self), msg),
            exists|t: TimeOfDay| t.wf() && r@ == reaction(*old(self), msg, t),
    {
        let now = current_time();
        self.handle(msg, &now)
    }
}

/// A tick leaves the state as it was, so two ticks at the same time of
/// day submit the same commands.
pub proof fn lemma_tick_is_repeatable(s: ClockState, t: TimeOfDay)
    ensures
        next_state(s, MainMessage::TimeSignal) == s,
        reaction(next_state(s, MainMessage::TimeSignal), MainMessage::TimeSignal, t)
            == reaction(s, MainMessage::TimeSignal, t),
{
}

/// The brightness button steps the level by one modulo sixteen: from 15
/// it goes back to 0, and it never leaves 0..=15.
pub proof fn lemma_brightness_wraps(s: ClockState)
    requires
        s.wf(),
    ensures
        next_state(s, MainMessage::ButtonChange(BRIGHTNESS_BUTTON)).wf(),
        next_state(s, MainMessage::ButtonChange(BRIGHTNESS_BUTTON)).intensity as int
            == (s.intensity as int + 1) % 16,
        s.intensity == 15 ==> next_state(s, MainMessage::ButtonChange(BRIGHTNESS_BUTTON)).intensity == 0,
        s.intensity < 15 ==> next_state(s, MainMessage::ButtonChange(BRIGHTNESS_BUTTON)).intensity
            == s.intensity + 1,
{
}

/// The orientation button flips the orientation, two presses restore the
/// state, and each press shows the time at once in the new orientation.
pub proof fn lemma_orientation_two_cycle(s: ClockState, t: TimeOfDay)
    ensures
        next_state(s, MainMessage::ButtonChange(ORIENTATION_BUTTON)).orientation != s.orientation,
        next_state(next_state(s, MainMessage::ButtonChange(ORIENTATION_BUTTON)),
            MainMessage::ButtonChange(ORIENTATION_BUTTON)) == s,
        reaction(s, MainMessage::ButtonChange(ORIENTATION_BUTTON), t)
            == clock_commands(t, toggled(s.orientation)),
{
}

} // verus!
