//! The button: a press is the change from released to pressed between two
//! polls, and each press toggles the dimmer.

use crate::state::StateCommand;
use vstd::prelude::*;

verus! {

/// What the button poller keeps between two polls.
#[derive(Debug, Clone, Copy, PartialEq, Eq, Structural)]
pub struct ButtonPoller {
    /// Whether the button was down at the last poll.
    pub was_pressed: bool,
}

/// The command that a poll gives rise to: a toggle of the dimmer when the
/// button is down and was not at the poll before, else none.
pub open spec fn press_command(was_pressed: bool, is_pressed: bool) -> Option<StateCommand> {
    if is_pressed && !was_pressed {
        Some(StateCommand::ToggleDimmer)
    } else {
        None
    }
}

impl ButtonPoller {
    /// Creates a poller that has seen the button released.
    pub fn new() -> (poller: ButtonPoller)
        ensures
            !poller.was_pressed,
    {
        ButtonPoller { was_pressed: false }
    }

    /// One poll: takes the level of the button, down or not, and returns the
    /// command to submit, if the button was pressed since the last poll.
    pub fn poll(&mut self, is_pressed: bool) -> (command: Option<StateCommand>)
        ensures
            command == press_command(old(self).was_pressed, is_pressed),
            final(self).was_pressed == is_pressed,
    {
        let command = if is_pressed && !self.was_pressed {
            Some(StateCommand::ToggleDimmer)
        } else {
            None
        };
        self.was_pressed = is_pressed;
        command
    }
}

/// A button that is held down counts as one press: the poll after one that
/// saw the button down submits nothing.
pub proof fn lemma_held_button_counts_once(is_pressed: bool)
    ensures
        press_command(true, is_pressed) is None,
{
}

} // verus!
