//! Laws of the state core: what holds of the transition rule for every
//! state, every command and every run of commands.

use crate::bulb::TasmotaCommand;
use crate::marker_color::MarkerColor;
use crate::state::{
    bulb_commands, cleared_command, color_command, shown_states, toggled_level, Effect, State,
    StateCommand, TimedCommand,
};
use vstd::prelude::*;

verus! {

/// One command has at most one bulb command and at most one shown state as
/// its effects, the bulb command first; and a state that is shown is the state
/// that the command led to.
pub proof fn lemma_step_effects_shape(state: State, command: StateCommand, now: u32)
    ensures
        ({
            let (next, effects) = state.step(command, now);
            ||| effects == Seq::<Effect>::empty()
            ||| exists|bulb_command: TasmotaCommand|
                effects == seq![Effect::SendBulbCommand(bulb_command)]
            ||| effects == seq![Effect::ShowState(next)]
            ||| exists|bulb_command: TasmotaCommand|
                effects == seq![Effect::SendBulbCommand(bulb_command), Effect::ShowState(next)]
        }),
{
    let (next, effects) = state.step(command, now);
    match command {
        StateCommand::SetMarkerColor(color) => {
            if state.last_marker_color != Some(color) {
                assert(effects == seq![
                    Effect::SendBulbCommand(color_command(color)),
                    Effect::ShowState(next),
                ]);
            }
        },
        StateCommand::ClearMarkerColor => {
            if state.last_marker_color is Some {
                assert(effects == seq![
                    Effect::SendBulbCommand(cleared_command()),
                    Effect::ShowState(next),
                ]);
            }
        },
        StateCommand::SetConnected(connected) => {
            if state.is_connected != connected {
                match state.intended_bulb_state {
                    Some(intended) if connected => {
                        assert(effects == seq![
                            Effect::SendBulbCommand(intended),
                            Effect::ShowState(next),
                        ]);
                    },
                    _ => {},
                }
            }
        },
        StateCommand::SyncState => {
            match state.intended_bulb_state {
                Some(intended) if state.is_connected => {
                    assert(effects == seq![Effect::SendBulbCommand(intended)]);
                },
                _ => {},
            }
        },
        StateCommand::ToggleDimmer => {
            let level = toggled_level(state.current_dimmer_level);
            assert(effects == seq![
                Effect::SendBulbCommand(TasmotaCommand::Dimmer(level)),
                Effect::ShowState(next),
            ]);
        },
    }
}

/// A command has no effects exactly where the transition rule ignores it, and
/// then it leaves the state as it is. Synchronising never changes the state.
pub proof fn lemma_ignored_commands_do_nothing(state: State, command: StateCommand, now: u32)
    ensures
        state.step(command, now).1.len() == 0 <==> state.ignores(command),
        state.ignores(command) ==> state.step(command, now).0 == state,
        command == StateCommand::SyncState ==> state.step(command, now).0 == state,
{
}

/// Detecting the same marker twice in a row counts once: the second command
/// changes nothing and has no effects, and the two together have the one bulb
/// command and the one shown state of the first.
pub proof fn lemma_repeated_detection_counts_once(
    state: State,
    color: MarkerColor,
    first: u32,
    second: u32,
)
    ensures
        ({
            let (detected, effects) = state.step(StateCommand::SetMarkerColor(color), first);
            let again = detected.step(StateCommand::SetMarkerColor(color), second);
            &&& again == (detected, Seq::<Effect>::empty())
            &&& state.last_marker_color != Some(color) ==> {
                &&& bulb_commands(effects + again.1) == seq![color_command(color)]
                &&& shown_states(effects + again.1) == seq![detected]
            }
            &&& state.last_marker_color == Some(color) ==> effects == Seq::<Effect>::empty()
        }),
{
    let (detected, effects) = state.step(StateCommand::SetMarkerColor(color), first);
    if state.last_marker_color != Some(color) {
        assert(effects + Seq::<Effect>::empty() =~= effects);
        lemma_effects_of_change(color_command(color), detected);
    }
}

/// A bulb command followed by a shown state holds just these two.
proof fn lemma_effects_of_change(bulb_command: TasmotaCommand, shown: State)
    ensures
        bulb_commands(seq![Effect::SendBulbCommand(bulb_command), Effect::ShowState(shown)])
            == seq![bulb_command],
        shown_states(seq![Effect::SendBulbCommand(bulb_command), Effect::ShowState(shown)])
            == seq![shown],
{
    let both = seq![Effect::SendBulbCommand(bulb_command), Effect::ShowState(shown)];
    let head = seq![Effect::SendBulbCommand(bulb_command)];
    assert(both.drop_last() =~= head);
    assert(head.drop_last() =~= Seq::<Effect>::empty());
    reveal_with_fuel(bulb_commands, 3);
    reveal_with_fuel(shown_states, 3);
    assert(bulb_commands(both) =~= seq![bulb_command]);
    assert(shown_states(both) =~= seq![shown]);
}

/// Clearing the marker color while none is active changes nothing and has no
/// effects.
pub proof fn lemma_clear_without_marker_is_ignored(state: State, now: u32)
    requires
        state.last_marker_color is None,
    ensures
        state.step(StateCommand::ClearMarkerColor, now) == (state, Seq::<Effect>::empty()),
{
}

/// When the link comes up again, the intended bulb state is sent once more:
/// exactly that command, followed by the new state for the LED.
pub proof fn lemma_reconnect_resends_intended(state: State, intended: TasmotaCommand, now: u32)
    requires
        !state.is_connected,
        state.intended_bulb_state == Some(intended),
    ensures
        ({
            let (next, effects) = state.step(StateCommand::SetConnected(true), now);
            &&& next == state.with_connected(true)
            &&& effects == seq![Effect::SendBulbCommand(intended), Effect::ShowState(next)]
            &&& bulb_commands(effects) == seq![intended]
        }),
{
    lemma_effects_of_change(intended, state.with_connected(true));
}

/// A marker detected, then the link lost and found again: the reconnection
/// sends exactly one bulb command, the one that the detection sent, and the
/// loss of the link sends none.
pub proof fn lemma_detection_survives_reconnect(
    state: State,
    color: MarkerColor,
    detected_at: u32,
    lost_at: u32,
    found_at: u32,
)
    requires
        state.last_marker_color != Some(color),
    ensures
        ({
            let (detected, first) = state.step(StateCommand::SetMarkerColor(color), detected_at);
            let (lost, second) = detected.step(StateCommand::SetConnected(false), lost_at);
            let (found, third) = lost.step(StateCommand::SetConnected(true), found_at);
            &&& bulb_commands(first) == seq![color_command(color)]
            &&& bulb_commands(second) == Seq::<TasmotaCommand>::empty()
            &&& bulb_commands(third) == bulb_commands(first)
            &&& found.intended_bulb_state == Some(color_command(color))
            &&& found.is_connected
        }),
{
    let (detected, first) = state.step(StateCommand::SetMarkerColor(color), detected_at);
    let (lost, second) = detected.step(StateCommand::SetConnected(false), lost_at);
    lemma_effects_of_change(color_command(color), detected);
    if detected.is_connected {
        assert(second == seq![Effect::ShowState(lost)]);
        assert(second.drop_last() =~= Seq::<Effect>::empty());
        reveal_with_fuel(bulb_commands, 2);
    }
    lemma_reconnect_resends_intended(lost, color_command(color), found_at);
}

/// Toggling the dimmer flips it between dark and full: from dark to full,
/// from anything else to dark, so that from dark three toggles give full,
/// dark and full; and each toggle sends the new level to the bulb.
pub proof fn lemma_dimmer_toggle_flips(state: State, first: u32, second: u32, third: u32)
    ensures
        ({
            let (once, effects) = state.step(StateCommand::ToggleDimmer, first);
            let (twice, _) = once.step(StateCommand::ToggleDimmer, second);
            let (thrice, _) = twice.step(StateCommand::ToggleDimmer, third);
            &&& once.current_dimmer_level == toggled_level(state.current_dimmer_level)
            &&& bulb_commands(effects) == seq![TasmotaCommand::Dimmer(once.current_dimmer_level)]
            &&& state.current_dimmer_level == 0 ==> {
                &&& once.current_dimmer_level == 100
                &&& twice.current_dimmer_level == 0
                &&& thrice.current_dimmer_level == 100
            }
            &&& state.wf() ==> twice.current_dimmer_level == state.current_dimmer_level
        }),
{
    let (once, effects) = state.step(StateCommand::ToggleDimmer, first);
    lemma_effects_of_change(TasmotaCommand::Dimmer(once.current_dimmer_level), once);
}

/// Handling one batch of commands and then another is the same as handling
/// the two as one: the effects of the earlier commands come first, unchanged
/// by what is submitted later.
pub proof fn lemma_run_in_two_parts(state: State, earlier: Seq<TimedCommand>, later: Seq<TimedCommand>)
    ensures
        ({
            let (middle, first) = state.run(earlier);
            let (last, second) = middle.run(later);
            state.run(earlier + later) == (last, first + second)
        }),
    decreases later.len(),
{
    let (middle, first) = state.run(earlier);
    let (last, second) = middle.run(later);
    if later.len() == 0 {
        assert(earlier + later =~= earlier);
        assert(first + second =~= first);
    } else {
        lemma_run_in_two_parts(state, earlier, later.drop_last());
        assert((earlier + later).drop_last() =~= earlier + later.drop_last());
        assert((earlier + later).last() == later.last());
        let (before, inner) = middle.run(later.drop_last());
        let (after, effects) = before.step(later.last().command, later.last().at);
        assert(first + (inner + effects) =~= (first + inner) + effects);
    }
}

/// Handling a single command is one step of the transition rule.
pub proof fn lemma_run_of_one(state: State, only: TimedCommand)
    ensures
        state.run(seq![only]) == state.step(only.command, only.at),
{
    let commands = seq![only];
    assert(commands.drop_last() =~= Seq::<TimedCommand>::empty());
    let (after, effects) = state.step(only.command, only.at);
    assert(Seq::<Effect>::empty() + effects =~= effects);
    reveal_with_fuel(State::run, 2);
}

/// Three commands submitted in the order `a`, `b`, `c` take effect in that
/// order: all effects of `a`, then all of `b`, then all of `c`, each computed
/// from the state that the commands before it left behind.
pub proof fn lemma_effects_follow_submission_order(
    state: State,
    a: TimedCommand,
    b: TimedCommand,
    c: TimedCommand,
)
    ensures
        ({
            let (after_a, effects_a) = state.step(a.command, a.at);
            let (after_b, effects_b) = after_a.step(b.command, b.at);
            let (after_c, effects_c) = after_b.step(c.command, c.at);
            state.run(seq![a, b, c]) == (after_c, effects_a + effects_b + effects_c)
        }),
{
    lemma_run_of_one(state, a);
    let (after_a, effects_a) = state.step(a.command, a.at);
    lemma_run_of_one(after_a, b);
    let (after_b, effects_b) = after_a.step(b.command, b.at);
    lemma_run_of_one(after_b, c);
    lemma_run_in_two_parts(state, seq![a], seq![b]);
    lemma_run_in_two_parts(state, seq![a] + seq![b], seq![c]);
    assert(seq![a] + seq![b] + seq![c] =~= seq![a, b, c]);
}

/// The bulb commands of two runs of effects, one after the other, are those
/// of the first followed by those of the second; so for the shown states.
pub proof fn lemma_effects_split(first: Seq<Effect>, second: Seq<Effect>)
    ensures
        bulb_commands(first + second) == bulb_commands(first) + bulb_commands(second),
        shown_states(first + second) == shown_states(first) + shown_states(second),
    decreases second.len(),
{
    if second.len() == 0 {
        assert(first + second =~= first);
        assert(bulb_commands(first) + bulb_commands(second) =~= bulb_commands(first));
        assert(shown_states(first) + shown_states(second) =~= shown_states(first));
    } else {
        lemma_effects_split(first, second.drop_last());
        assert((first + second).drop_last() =~= first + second.drop_last());
        assert((first + second).last() == second.last());
        assert(bulb_commands(first + second) =~= bulb_commands(first) + bulb_commands(second));
        assert(shown_states(first + second) =~= shown_states(first) + shown_states(second));
    }
}

/// The bulb commands and the shown states of one command: the bulb command
/// that it sends is the intended bulb state afterwards, and the state that it
/// shows is the state afterwards; a command that shows nothing has left the
/// state as it was, and one that sends nothing has left the intended bulb
/// state as it was.
pub proof fn lemma_step_reports_what_it_changes(state: State, command: StateCommand, now: u32)
    ensures
        ({
            let (next, effects) = state.step(command, now);
            &&& bulb_commands(effects).len() <= 1
            &&& shown_states(effects).len() <= 1
            &&& bulb_commands(effects).len() == 1 ==> next.intended_bulb_state == Some(
                bulb_commands(effects)[0],
            )
            &&& bulb_commands(effects).len() == 0 ==> next.intended_bulb_state
                == state.intended_bulb_state
            &&& shown_states(effects).len() == 1 ==> shown_states(effects)[0] == next
            &&& shown_states(effects).len() == 0 ==> next == state
        }),
{
    let (next, effects) = state.step(command, now);
    lemma_step_effects_shape(state, command, now);
    reveal_with_fuel(bulb_commands, 2);
    reveal_with_fuel(shown_states, 2);
    if effects == Seq::<Effect>::empty() {
    } else if effects == seq![Effect::ShowState(next)] {
        assert(effects.drop_last() =~= Seq::<Effect>::empty());
    } else if exists|bulb_command: TasmotaCommand|
        effects == seq![Effect::SendBulbCommand(bulb_command)] {
        assert(effects.drop_last() =~= Seq::<Effect>::empty());
    } else {
        let bulb_command = choose|bulb_command: TasmotaCommand|
            effects == seq![Effect::SendBulbCommand(bulb_command), Effect::ShowState(next)];
        lemma_effects_of_change(bulb_command, next);
    }
}

/// After any run of commands, the bulb queue and the LED slot are up to
/// date: the bulb command sent last, if any was sent, is the intended bulb
/// state, and the state shown last, if any was shown, is the current state.
/// Where nothing was shown the state is as it was before the run.
pub proof fn lemma_last_effects_are_current(state: State, commands: Seq<TimedCommand>)
    ensures
        ({
            let (last, effects) = state.run(commands);
            let sent = bulb_commands(effects);
            let shown = shown_states(effects);
            &&& sent.len() > 0 ==> last.intended_bulb_state == Some(sent.last())
            &&& sent.len() == 0 ==> last.intended_bulb_state == state.intended_bulb_state
            &&& shown.len() > 0 ==> shown.last() == last
            &&& shown.len() == 0 ==> last == state
        }),
    decreases commands.len(),
{
    if commands.len() > 0 {
        lemma_last_effects_are_current(state, commands.drop_last());
        let (before, earlier) = state.run(commands.drop_last());
        let (after, effects) = before.step(commands.last().command, commands.last().at);
        lemma_step_reports_what_it_changes(before, commands.last().command, commands.last().at);
        lemma_effects_split(earlier, effects);
    }
}

/// Every command keeps a consistent state consistent.
pub proof fn lemma_step_keeps_consistent(state: State, command: StateCommand, now: u32)
    requires
        state.consistent(),
    ensures
        state.step(command, now).0.consistent(),
{
}

/// Every run of commands keeps a consistent state consistent.
pub proof fn lemma_run_keeps_consistent(state: State, commands: Seq<TimedCommand>)
    requires
        state.consistent(),
    ensures
        state.run(commands).0.consistent(),
    decreases commands.len(),
{
    if commands.len() > 0 {
        lemma_run_keeps_consistent(state, commands.drop_last());
        let before = state.run(commands.drop_last()).0;
        lemma_step_keeps_consistent(before, commands.last().command, commands.last().at);
    }
}

/// Every state that the core reaches from boot is consistent.
pub proof fn lemma_reachable_states_are_consistent(commands: Seq<TimedCommand>)
    ensures
        State::initial().run(commands).0.consistent(),
{
    lemma_run_keeps_consistent(State::initial(), commands);
}

} // verus!
