//! The state core of a controller that reads color markers by their tags and
//! sets a smart bulb to the color of the marker it sees.
//!
//! - [`marker_color`]: the registry of markers, their tags and light settings.
//! - [`state`]: the device state, the commands that change it, and the effects
//!   of each command on the bulb queue and the status LED.
//! - [`state_laws`]: what holds of the state core for every run of commands.
//! - [`bulb`]: bulb commands, their text on the wire, the dispatcher's pacing.
//! - [`led`]: the pattern of the status LED.
//! - [`button`] and [`rfid`]: the commands that the inputs give rise to.
//! - [`clock`]: timestamps of the device clock.
//! - [`constants`]: timing constants.

pub mod bulb;
pub mod button;
pub mod clock;
pub mod constants;
pub mod led;
pub mod marker_color;
pub mod rfid;
pub mod state;
pub mod state_laws;
