//! The state core: the device state, the commands that change it, and the
//! effects that each command has on the bulb queue and on the status LED.

use crate::bulb::TasmotaCommand;
use crate::clock;
use crate::marker_color::MarkerColor;
use vstd::prelude::*;

verus! {

/// What the device knows of itself. Times are timestamps of the device clock.
#[derive(Debug, Clone, Copy, PartialEq, Eq)]
pub struct State {
    /// When the marker color was last set or cleared.
    pub last_marker_color_updated_at: u32,
    /// The marker that is active, if any.
    pub last_marker_color: Option<MarkerColor>,
    /// Whether the wireless link is up, as last reported.
    pub is_connected: bool,
    /// The last command that the bulb was meant to apply.
    pub intended_bulb_state: Option<TasmotaCommand>,
    /// Dimmer level in percent: 0 or 100.
    pub current_dimmer_level: u8,
    /// When the button was last pressed.
    pub last_button_press_at: u32,
}

/// A request to the state core.
#[derive(Debug, Clone, Copy, PartialEq, Eq, Structural)]
pub enum StateCommand {
    /// A marker of this color was detected.
    SetMarkerColor(MarkerColor),
    /// No marker is active any more.
    ClearMarkerColor,
    /// The wireless link came up or went down.
    SetConnected(bool),
    /// Assert the intended bulb state once more.
    SyncState,
    /// Switch the dimmer between dark and full.
    ToggleDimmer,
}

/// Something that the state core asks of its surroundings.
#[derive(Debug, Clone, Copy, PartialEq, Eq)]
pub enum Effect {
    /// Put this command at the end of the outbound bulb queue.
    SendBulbCommand(TasmotaCommand),
    /// Replace what the LED slot holds by this state.
    ShowState(State),
}

/// A command together with the time at which the state core handles it.
#[derive(Debug, Clone, Copy, PartialEq, Eq)]
pub struct TimedCommand {
    /// The command.
    pub command: StateCommand,
    /// The timestamp of the device clock at which it is handled.
    pub at: u32,
}

/// The bulb command that shows a marker color.
pub open spec fn color_command(color: MarkerColor) -> TasmotaCommand {
    TasmotaCommand::HSBColor(color.spec_hsb().0, color.spec_hsb().1, color.spec_hsb().2)
}

/// The bulb command sent when the marker color is cleared.
pub open spec fn cleared_command() -> TasmotaCommand {
    TasmotaCommand::White(100)
}

/// The dimmer level that a toggle leads to.
pub open spec fn toggled_level(level: u8) -> u8 {
    if level == 0 {
        100
    } else {
        0
    }
}

impl Default for State {
    /// The state at boot.
    fn default() -> (state: State)
        ensures
            state == State::initial(),
    {
        State::new()
    }
}

impl State {
    /// The state at boot: nothing detected, not connected, nothing intended,
    /// dimmer dark, both times at the earliest instant of the clock.
    pub open spec fn initial() -> State {
        State {
            last_marker_color_updated_at: 0,
            last_marker_color: None,
            is_connected: false,
            intended_bulb_state: None,
            current_dimmer_level: 0,
            last_button_press_at: 0,
        }
    }

    /// The dimmer is either dark or full.
    pub open spec fn wf(self) -> bool {
        self.current_dimmer_level == 0 || self.current_dimmer_level == 100
    }

    /// This state after a marker of `color` was detected at `now`.
    pub open spec fn with_marker_color(self, color: MarkerColor, now: u32) -> State {
        State {
            last_marker_color: Some(color),
            last_marker_color_updated_at: now,
            current_dimmer_level: 100,
            ..self
        }
    }

    /// This state after the marker color was cleared at `now`.
    pub open spec fn without_marker_color(self, now: u32) -> State {
        State { last_marker_color: None, last_marker_color_updated_at: now, ..self }
    }

    /// This state with the link reported as `connected`.
    pub open spec fn with_connected(self, connected: bool) -> State {
        State { is_connected: connected, ..self }
    }

    /// This state with the dimmer toggled.
    pub open spec fn with_dimmer_toggled(self) -> State {
        State { current_dimmer_level: toggled_level(self.current_dimmer_level), ..self }
    }

    /// The transition rule of the state core: the state that `command` leads
    /// to when it is handled at `now`, and the effects it has, in the order in
    /// which they are emitted.
    pub open spec fn step(self, command: StateCommand, now: u32) -> (State, Seq<Effect>) {
        match command {
            StateCommand::SetMarkerColor(color) => {
                if self.last_marker_color == Some(color) {
                    (self, Seq::empty())
                } else {
                    let next = State {
                        intended_bulb_state: Some(color_command(color)),
                        ..self.with_marker_color(color, now)
                    };
                    (
                        next,
                        seq![Effect::SendBulbCommand(color_command(color)), Effect::ShowState(next)],
                    )
                }
            },
            StateCommand::ClearMarkerColor => {
                if self.last_marker_color is None {
                    (self, Seq::empty())
                } else {
                    let next = State {
                        intended_bulb_state: Some(cleared_command()),
                        ..self.without_marker_color(now)
                    };
                    (
                        next,
                        seq![Effect::SendBulbCommand(cleared_command()), Effect::ShowState(next)],
                    )
                }
            },
            StateCommand::SetConnected(connected) => {
                if self.is_connected == connected {
                    (self, Seq::empty())
                } else {
                    let next = self.with_connected(connected);
                    match self.intended_bulb_state {
                        Some(intended) if connected => (
                            next,
                            seq![Effect::SendBulbCommand(intended), Effect::ShowState(next)],
                        ),
                        _ => (next, seq![Effect::ShowState(next)]),
                    }
                }
            },
            StateCommand::SyncState => {
                match self.intended_bulb_state {
                    Some(intended) if self.is_connected => (
                        self,
                        seq![Effect::SendBulbCommand(intended)],
                    ),
                    _ => (self, Seq::empty()),
                }
            },
            StateCommand::ToggleDimmer => {
                let level = toggled_level(self.current_dimmer_level);
                let next = State {
                    last_button_press_at: now,
                    intended_bulb_state: Some(TasmotaCommand::Dimmer(level)),
                    ..self.with_dimmer_toggled()
                };
                (
                    next,
                    seq![
                        Effect::SendBulbCommand(TasmotaCommand::Dimmer(level)),
                        Effect::ShowState(next),
                    ],
                )
            },
        }
    }

    /// The commands that the transition rule ignores: a marker that is
    /// active already, a clearing while no marker is active, a link state that
    /// is known already, and a request to synchronise while disconnected or
    /// before anything was intended. A toggle of the dimmer is never ignored.
    pub open spec fn ignores(self, command: StateCommand) -> bool {
        match command {
            StateCommand::SetMarkerColor(color) => self.last_marker_color == Some(color),
            StateCommand::ClearMarkerColor => self.last_marker_color is None,
            StateCommand::SetConnected(connected) => self.is_connected == connected,
            StateCommand::SyncState => !self.is_connected || self.intended_bulb_state is None,
            StateCommand::ToggleDimmer => false,
        }
    }

    /// The outcome of handling `commands` one after the other, each to
    /// completion before the next: the last state, and the effects of all of
    /// them in one sequence.
    pub open spec fn run(self, commands: Seq<TimedCommand>) -> (State, Seq<Effect>)
        decreases commands.len(),
    {
        if commands.len() == 0 {
            (self, Seq::empty())
        } else {
            let (before, earlier) = self.run(commands.drop_last());
            let (after, effects) = before.step(commands.last().command, commands.last().at);
            (after, earlier + effects)
        }
    }

    /// The intended bulb state agrees with the marker color and the dimmer
    /// level: nothing is intended before the first change; a color is
    /// intended only while its marker is active and the dimmer is full; white
    /// is intended only while no marker is active; an intended dimmer level
    /// is the current one.
    pub open spec fn consistent(self) -> bool {
        &&& self.wf()
        &&& match self.intended_bulb_state {
            None => self.last_marker_color is None && self.current_dimmer_level == 0,
            Some(TasmotaCommand::HSBColor(h, s, b)) => {
                &&& self.current_dimmer_level == 100
                &&& self.last_marker_color matches Some(color)
                &&& color_command(color) == TasmotaCommand::HSBColor(h, s, b)
            },
            Some(TasmotaCommand::White(value)) => value == 100 && self.last_marker_color is None,
            Some(TasmotaCommand::Dimmer(level)) => level == self.current_dimmer_level,
        }
    }

    /// Creates the state at boot.
    pub fn new() -> (state: State)
        ensures
            state == State::initial(),
            state.consistent(),
    {
        State {
            last_marker_color_updated_at: clock::earliest(),
            last_marker_color: None,
            is_connected: false,
            intended_bulb_state: None,
            current_dimmer_level: 0,
            last_button_press_at: clock::earliest(),
        }
    }

    /// Records that a marker of `color` was detected at `now`: the color is
    /// active, and the dimmer is back at full.
    pub fn update_marker_color_at(&mut self, color: MarkerColor, now: u32)
        ensures
            *final(self) == old(self).with_marker_color(color, now),
            final(self).wf(),
    {
        self.last_marker_color = Some(color);
        self.last_marker_color_updated_at = now;
        self.current_dimmer_level = 100;
    }

    /// Records that a marker of `color` was detected just now.
    pub fn update_marker_color(&mut self, color: MarkerColor)
        ensures
            exists|now: u32| *final(self) == #[trigger] old(self).with_marker_color(color, now),
            final(self).wf(),
    {
        self.update_marker_color_at(color, clock::now());
    }

    /// Records that the marker color was cleared at `now`.
    pub fn clear_marker_color_at(&mut self, now: u32)
        ensures
            *final(self) == old(self).without_marker_color(now),
            old(self).wf() ==> final(self).wf(),
    {
        self.last_marker_color = None;
        self.last_marker_color_updated_at = now;
    }

    /// Records that the marker color was cleared just now.
    pub fn clear_marker_color(&mut self)
        ensures
            exists|now: u32| *final(self) == #[trigger] old(self).without_marker_color(now),
            old(self).wf() ==> final(self).wf(),
    {
        self.clear_marker_color_at(clock::now());
    }

    /// Records the state of the wireless link.
    pub fn set_connected(&mut self, connected: bool)
        ensures
            *final(self) == old(self).with_connected(connected),
            old(self).wf() ==> final(self).wf(),
    {
        self.is_connected = connected;
    }

    /// Switches the dimmer between dark and full, and returns the new level.
    pub fn toggle_dimmer(&mut self) -> (level: u8)
        ensures
            *final(self) == old(self).with_dimmer_toggled(),
            level == toggled_level(old(self).current_dimmer_level),
            final(self).wf(),
    {
        self.current_dimmer_level = if self.current_dimmer_level == 0 {
            100
        } else {
            0
        };
        self.current_dimmer_level
    }

    /// Handles one command at the time `now`, to completion: applies the
    /// transition rule to the state and returns the effects of the command in
    /// the order in which they are to be carried out. A command that the rule
    /// ignores leaves the state as it is and has no effects.
    pub fn handle_command_at(&mut self, command: StateCommand, now: u32) -> (effects: Vec<Effect>)
        ensures
            (*final(self), effects@) == old(self).step(command, now),
            old(self).wf() ==> final(self).wf(),
            old(self).consistent() ==> final(self).consistent(),
    {
        let mut effects: Vec<Effect> = Vec::new();
        match command {
            StateCommand::SetMarkerColor(color) => {
                let color_changed = match self.last_marker_color {
                    Some(active) => active != color,
                    None => true,
                };
                if color_changed {
                    self.update_marker_color_at(color, now);
                    let (h, s, b) = color.hsb();
                    let bulb_command = TasmotaCommand::HSBColor(h, s, b);
                    self.intended_bulb_state = Some(bulb_command);
                    effects.push(Effect::SendBulbCommand(bulb_command));
                    effects.push(Effect::ShowState(*self));
                }
            },
            StateCommand::ClearMarkerColor => {
                if self.last_marker_color.is_some() {
                    self.clear_marker_color_at(now);
                    let bulb_command = TasmotaCommand::White(100);
                    self.intended_bulb_state = Some(bulb_command);
                    effects.push(Effect::SendBulbCommand(bulb_command));
                    effects.push(Effect::ShowState(*self));
                }
            },
            StateCommand::SetConnected(connected) => {
                if self.is_connected != connected {
                    self.set_connected(connected);
                    if connected {
                        if let Some(intended) = self.intended_bulb_state {
                            effects.push(Effect::SendBulbCommand(intended));
                        }
                    }
                    effects.push(Effect::ShowState(*self));
                }
            },
            StateCommand::SyncState => {
                if self.is_connected {
                    if let Some(intended) = self.intended_bulb_state {
                        effects.push(Effect::SendBulbCommand(intended));
                    }
                }
            },
            StateCommand::ToggleDimmer => {
                let level = self.toggle_dimmer();
                self.last_button_press_at = now;
                let bulb_command = TasmotaCommand::Dimmer(level);
                self.intended_bulb_state = Some(bulb_command);
                effects.push(Effect::SendBulbCommand(bulb_command));
                effects.push(Effect::ShowState(*self));
            },
        }
        assert(effects@ =~= old(self).step(command, now).1);
        effects
    }

    /// Handles `commands` in the order given, each at its own time and to
    /// completion before the next, and returns the effects of all of them in
    /// the order in which they arose.
    pub fn handle_all(&mut self, commands: &[TimedCommand]) -> (effects: Vec<Effect>)
        ensures
            (*final(self), effects@) == old(self).run(commands@),
            old(self).wf() ==> final(self).wf(),
            old(self).consistent() ==> final(self).consistent(),
    {
        let ghost start = *self;
        let mut effects: Vec<Effect> = Vec::new();
        let mut i: usize = 0;
        while i < commands.len()
            invariant
                i <= commands.len(),
                (*self, effects@) == start.run(commands@.take(i as int)),
                start.wf() ==> self.wf(),
                start.consistent() ==> self.consistent(),
            decreases commands.len() - i,
        {
            let next = commands[i];
            let mut step_effects = self.handle_command_at(next.command, next.at);
            effects.append(&mut step_effects);
            proof {
                let handled = commands@.take(i + 1);
                assert(handled.drop_last() =~= commands@.take(i as int));
                assert(handled.last() == next);
            }
            i += 1;
        }
        assert(commands@.take(i as int) =~= commands@);
        effects
    }

    /// Handles one command at the present time of the device clock.
    pub fn handle_command(&mut self, command: StateCommand) -> (effects: Vec<Effect>)
        ensures
            exists|now: u32|
                (*final(self), effects@) == #[trigger] old(self).step(command, now),
            old(self).wf() ==> final(self).wf(),
            old(self).consistent() ==> final(self).consistent(),
    {
        self.handle_command_at(command, clock::now())
    }
}

/// The bulb commands among `effects`, in their order.
pub open spec fn bulb_commands(effects: Seq<Effect>) -> Seq<TasmotaCommand>
    decreases effects.len(),
{
    if effects.len() == 0 {
        Seq::empty()
    } else {
        match effects.last() {
            Effect::SendBulbCommand(command) => bulb_commands(effects.drop_last()).push(command),
            Effect::ShowState(_) => bulb_commands(effects.drop_last()),
        }
    }
}

/// The states shown to the LED among `effects`, in their order.
pub open spec fn shown_states(effects: Seq<Effect>) -> Seq<State>
    decreases effects.len(),
{
    if effects.len() == 0 {
        Seq::empty()
    } else {
        match effects.last() {
            Effect::SendBulbCommand(_) => shown_states(effects.drop_last()),
            Effect::ShowState(state) => shown_states(effects.drop_last()).push(state),
        }
    }
}

} // verus!
