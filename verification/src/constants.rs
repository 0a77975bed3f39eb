//! Timing constants of the bulb dispatcher and of the status LED.

use vstd::prelude::*;

verus! {

/// Pause after a delivered bulb command, while the bulb completes its fade.
pub const COMMAND_DELAY_MS: u64 = 500;

/// Pause after a request to the bulb could not even be set up.
pub const REQUEST_RETRY_DELAY_MS: u64 = 2000;

/// First lit part of the marker flash.
pub const LED_FLASH_ON_TIME_MS: u32 = 100;

/// Dark part of the marker flash, between its two lit parts.
pub const LED_FLASH_OFF_TIME_MS: u32 = 100;

/// Whole length of the marker flash.
pub const LED_FLASH_CYCLE_TIME_MS: u32 = 300;

/// Lit part of the slow blink shown while disconnected.
pub const LED_SLOW_BLINK_ON_TIME_MS: u32 = 500;

/// Dark part of the slow blink shown while disconnected.
pub const LED_SLOW_BLINK_OFF_TIME_MS: u32 = 1500;

/// Length of the flash that answers a button press.
pub const LED_BUTTON_FLASH_TIME_MS: u32 = 150;

} // verus!
