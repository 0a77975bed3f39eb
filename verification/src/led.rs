//! The status LED: which pattern it shows for a device state, and whether it
//! is lit at a given moment of that pattern.

use crate::clock;
use crate::clock::spec_elapsed;
use crate::constants::{
    LED_BUTTON_FLASH_TIME_MS, LED_FLASH_CYCLE_TIME_MS, LED_FLASH_OFF_TIME_MS, LED_FLASH_ON_TIME_MS,
    LED_SLOW_BLINK_OFF_TIME_MS, LED_SLOW_BLINK_ON_TIME_MS,
};
use crate::state::State;
use vstd::prelude::*;

verus! {

/// The patterns of the status LED, from the one that masks all others down.
#[derive(Debug, Clone, Copy, PartialEq, Eq, Structural)]
pub enum LedPattern {
    /// Slow blink: the device is not connected.
    SlowBlink,
    /// One short flash: the button was pressed a moment ago.
    ButtonFlash,
    /// Two short flashes: a marker was detected a moment ago.
    MarkerFlash,
    /// Dark: connected, nothing happened lately.
    Off,
}

/// Whether the slow blink is lit `t` milliseconds after it began.
pub open spec fn slow_blink_lit(t: u32) -> bool {
    (t as int) % (LED_SLOW_BLINK_ON_TIME_MS + LED_SLOW_BLINK_OFF_TIME_MS)
        < LED_SLOW_BLINK_ON_TIME_MS
}

/// Whether the marker flash is lit `t` milliseconds after the detection:
/// during its first part and again after its dark part, until it ends.
pub open spec fn marker_flash_lit(t: u32) -> bool {
    t < LED_FLASH_ON_TIME_MS || (LED_FLASH_ON_TIME_MS + LED_FLASH_OFF_TIME_MS < t
        && t < LED_FLASH_CYCLE_TIME_MS)
}

/// The pattern that the LED shows for `state` at the time `now`.
pub open spec fn spec_pattern(state: State, now: u32) -> LedPattern {
    if !state.is_connected {
        LedPattern::SlowBlink
    } else if spec_elapsed(now, state.last_button_press_at) < LED_BUTTON_FLASH_TIME_MS {
        LedPattern::ButtonFlash
    } else if state.last_marker_color is Some && spec_elapsed(
        now,
        state.last_marker_color_updated_at,
    ) < LED_FLASH_CYCLE_TIME_MS {
        LedPattern::MarkerFlash
    } else {
        LedPattern::Off
    }
}

/// Whether the LED is lit for `state` at the time `now`, when the slow blink
/// began at `slow_blink_start`.
pub open spec fn spec_is_lit(state: State, slow_blink_start: u32, now: u32) -> bool {
    match spec_pattern(state, now) {
        LedPattern::SlowBlink => slow_blink_lit(spec_elapsed(now, slow_blink_start)),
        LedPattern::ButtonFlash => true,
        LedPattern::MarkerFlash => marker_flash_lit(
            spec_elapsed(now, state.last_marker_color_updated_at),
        ),
        LedPattern::Off => false,
    }
}

/// Picks the pattern that the LED shows for `state` at the time `now`: the
/// slow blink while disconnected, whatever else happened; else the button
/// flash, if the button was pressed less than its flash time ago; else the
/// marker flash, if a marker is active and was detected less than a flash
/// cycle ago; else none.
pub fn pattern(state: &State, now: u32) -> (p: LedPattern)
    ensures
        p == spec_pattern(*state, now),
{
    if !state.is_connected {
        LedPattern::SlowBlink
    } else if clock::elapsed(now, state.last_button_press_at) < LED_BUTTON_FLASH_TIME_MS {
        LedPattern::ButtonFlash
    } else if state.last_marker_color.is_some() && clock::elapsed(
        now,
        state.last_marker_color_updated_at,
    ) < LED_FLASH_CYCLE_TIME_MS {
        LedPattern::MarkerFlash
    } else {
        LedPattern::Off
    }
}

/// Tells whether the LED is lit for `state` at the time `now`, when the slow
/// blink began at `slow_blink_start`.
pub fn is_lit(state: &State, slow_blink_start: u32, now: u32) -> (lit: bool)
    ensures
        lit == spec_is_lit(*state, slow_blink_start, now),
{
    match pattern(state, now) {
        LedPattern::SlowBlink => {
            let t = clock::elapsed(now, slow_blink_start);
            t % (LED_SLOW_BLINK_ON_TIME_MS + LED_SLOW_BLINK_OFF_TIME_MS)
                < LED_SLOW_BLINK_ON_TIME_MS
        },
        LedPattern::ButtonFlash => true,
        LedPattern::MarkerFlash => {
            let t = clock::elapsed(now, state.last_marker_color_updated_at);
            t < LED_FLASH_ON_TIME_MS || (t > LED_FLASH_ON_TIME_MS + LED_FLASH_OFF_TIME_MS && t
                < LED_FLASH_CYCLE_TIME_MS)
        },
        LedPattern::Off => false,
    }
}

/// What the LED renderer keeps between two polls: the latest state that was
/// shown to it, and when its slow blink began.
#[derive(Debug, Clone, Copy, PartialEq, Eq)]
pub struct LedRenderer {
    /// The latest state taken from the LED slot.
    pub current_state: State,
    /// When the current state was taken: the slow blink starts anew there.
    pub slow_blink_start: u32,
}

impl LedRenderer {
    /// The renderer as it starts at the time `now`: it holds the state at
    /// boot.
    pub open spec fn started(now: u32) -> LedRenderer {
        LedRenderer { current_state: State::initial(), slow_blink_start: now }
    }

    /// The renderer after it found `update` in the LED slot at the time
    /// `now`: a new state replaces the old one and starts the slow blink anew.
    pub open spec fn updated(self, update: Option<State>, now: u32) -> LedRenderer {
        match update {
            Some(state) => LedRenderer { current_state: state, slow_blink_start: now },
            None => self,
        }
    }

    /// Creates the renderer at the time `now`.
    pub fn new_at(now: u32) -> (renderer: LedRenderer)
        ensures
            renderer == LedRenderer::started(now),
    {
        LedRenderer { current_state: State::new(), slow_blink_start: now }
    }

    /// Creates the renderer at the present time of the device clock.
    pub fn new() -> (renderer: LedRenderer)
        ensures
            exists|now: u32| renderer == #[trigger] LedRenderer::started(now),
    {
        LedRenderer::new_at(clock::now())
    }

    /// One poll of the renderer at the time `now`: takes over `update`, the
    /// state found in the LED slot, if there is one, and tells whether the LED
    /// is to be lit.
    pub fn poll_at(&mut self, update: Option<State>, now: u32) -> (lit: bool)
        ensures
            *final(self) == old(self).updated(update, now),
            lit == spec_is_lit(final(self).current_state, final(self).slow_blink_start, now),
    {
        if let Some(state) = update {
            self.current_state = state;
            self.slow_blink_start = now;
        }
        is_lit(&self.current_state, self.slow_blink_start, now)
    }

    /// One poll of the renderer at the present time of the device clock.
    pub fn poll(&mut self, update: Option<State>) -> (lit: bool)
        ensures
            exists|now: u32|
                {
                    &&& *final(self) == #[trigger] old(self).updated(update, now)
                    &&& lit == spec_is_lit(
                        final(self).current_state,
                        final(self).slow_blink_start,
                        now,
                    )
                },
    {
        self.poll_at(update, clock::now())
    }
}

/// While the device is not connected the LED shows the slow blink and
/// nothing else: neither a marker detected a moment ago nor a button pressed
/// a moment ago changes what it shows.
pub proof fn lemma_disconnected_blink_masks_all(state: State, slow_blink_start: u32, now: u32)
    requires
        !state.is_connected,
    ensures
        spec_pattern(state, now) == LedPattern::SlowBlink,
        spec_is_lit(state, slow_blink_start, now) == slow_blink_lit(
            spec_elapsed(now, slow_blink_start),
        ),
{
}

/// While connected, a button pressed less than its flash time ago lights the
/// LED, whether or not a marker flash is under way.
pub proof fn lemma_button_flash_masks_marker_flash(state: State, slow_blink_start: u32, now: u32)
    requires
        state.is_connected,
        spec_elapsed(now, state.last_button_press_at) < LED_BUTTON_FLASH_TIME_MS,
    ensures
        spec_pattern(state, now) == LedPattern::ButtonFlash,
        spec_is_lit(state, slow_blink_start, now),
{
}

/// While connected, with no button flash under way, a marker detected less
/// than a flash cycle ago shows the double flash; with neither, the LED is
/// dark.
pub proof fn lemma_marker_flash_or_dark(state: State, slow_blink_start: u32, now: u32)
    requires
        state.is_connected,
        spec_elapsed(now, state.last_button_press_at) >= LED_BUTTON_FLASH_TIME_MS,
    ensures
        ({
            let t = spec_elapsed(now, state.last_marker_color_updated_at);
            if state.last_marker_color is Some && t < LED_FLASH_CYCLE_TIME_MS {
                &&& spec_pattern(state, now) == LedPattern::MarkerFlash
                &&& spec_is_lit(state, slow_blink_start, now) == (t < 100 || 200 < t)
            } else {
                &&& spec_pattern(state, now) == LedPattern::Off
                &&& !spec_is_lit(state, slow_blink_start, now)
            }
        }),
{
}

} // verus!
