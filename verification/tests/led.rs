use magic_markers::clock::{elapsed, timestamp};
use magic_markers::led::{is_lit, pattern, LedPattern, LedRenderer};
use magic_markers::marker_color::MarkerColor;
use magic_markers::state::State;

fn disconnected() -> State {
    State::new()
}

fn connected() -> State {
    State { is_connected: true, ..State::new() }
}

#[test]
fn elapsed_is_the_plain_difference() {
    assert_eq!(elapsed(1000, 400), 600);
    assert_eq!(elapsed(400, 400), 0);
    assert_eq!(elapsed(u32::MAX, 0), u32::MAX);
}

#[test]
fn elapsed_wraps_round_with_the_clock() {
    assert_eq!(elapsed(5, u32::MAX), 6);
    assert_eq!(elapsed(0, u32::MAX), 1);
    assert_eq!(elapsed(0, 1), u32::MAX);
    assert_eq!(elapsed(99, 4_294_967_196), 199);
}

#[test]
fn timestamp_keeps_the_low_32_bits() {
    assert_eq!(timestamp(0), 0);
    assert_eq!(timestamp(1234), 1234);
    assert_eq!(timestamp(4_294_967_295), u32::MAX);
    assert_eq!(timestamp(4_294_967_296), 0);
    assert_eq!(timestamp(4_294_967_296 + 17), 17);
    assert_eq!(timestamp(u64::MAX), u32::MAX);
}

#[test]
fn disconnected_led_blinks_slowly() {
    let state = disconnected();
    assert_eq!(pattern(&state, 0), LedPattern::SlowBlink);
    assert!(is_lit(&state, 0, 0));
    assert!(is_lit(&state, 0, 499));
    assert!(!is_lit(&state, 0, 500));
    assert!(!is_lit(&state, 0, 1999));
    assert!(is_lit(&state, 0, 2000));
    assert!(is_lit(&state, 0, 2499));
    assert!(!is_lit(&state, 0, 2500));
}

#[test]
fn slow_blink_counts_from_its_start() {
    let state = disconnected();
    assert!(is_lit(&state, 10_000, 10_000));
    assert!(is_lit(&state, 10_000, 10_499));
    assert!(!is_lit(&state, 10_000, 10_500));
    assert!(is_lit(&state, 10_000, 12_000));
}

#[test]
fn disconnected_blink_masks_a_recent_marker() {
    let mut state = disconnected();
    state.last_marker_color = Some(MarkerColor::Red);
    state.last_marker_color_updated_at = 10_600;
    assert_eq!(pattern(&state, 10_650), LedPattern::SlowBlink);
    // 650 ms into the blink: dark, though the marker flash would be lit
    assert!(!is_lit(&state, 10_000, 10_650));
    // 50 ms into the blink: lit, as the blink is
    state.last_marker_color_updated_at = 9_900;
    assert!(is_lit(&state, 10_000, 10_050));
    // 150 ms after the marker the flash would be dark; the blink is lit
    assert!(is_lit(&state, 10_000, 10_050));
    state.last_marker_color_updated_at = 9_850;
    assert!(is_lit(&state, 9_800, 10_000));
}

#[test]
fn disconnected_blink_masks_a_recent_button_press() {
    let mut state = disconnected();
    state.last_button_press_at = 10_990;
    assert_eq!(pattern(&state, 11_000), LedPattern::SlowBlink);
    assert!(!is_lit(&state, 10_000, 11_000));
}

#[test]
fn button_press_flashes_once() {
    let mut state = connected();
    state.last_button_press_at = 5_000;
    assert_eq!(pattern(&state, 5_000), LedPattern::ButtonFlash);
    assert!(is_lit(&state, 0, 5_000));
    assert!(is_lit(&state, 0, 5_149));
    assert_eq!(pattern(&state, 5_150), LedPattern::Off);
    assert!(!is_lit(&state, 0, 5_150));
    assert!(!is_lit(&state, 0, 9_000));
}

#[test]
fn marker_detection_flashes_twice() {
    let mut state = connected();
    state.last_button_press_at = 0;
    state.last_marker_color = Some(MarkerColor::Green);
    state.last_marker_color_updated_at = 7_000;
    assert_eq!(pattern(&state, 7_000), LedPattern::MarkerFlash);
    assert!(is_lit(&state, 0, 7_000));
    assert!(is_lit(&state, 0, 7_099));
    assert!(!is_lit(&state, 0, 7_100));
    assert!(!is_lit(&state, 0, 7_199));
    assert!(!is_lit(&state, 0, 7_200));
    assert!(is_lit(&state, 0, 7_201));
    assert!(is_lit(&state, 0, 7_299));
    assert_eq!(pattern(&state, 7_299), LedPattern::MarkerFlash);
    assert_eq!(pattern(&state, 7_300), LedPattern::Off);
    assert!(!is_lit(&state, 0, 7_300));
}

#[test]
fn cleared_marker_does_not_flash() {
    let mut state = connected();
    state.last_marker_color = None;
    state.last_marker_color_updated_at = 7_000;
    assert_eq!(pattern(&state, 7_050), LedPattern::Off);
    assert!(!is_lit(&state, 0, 7_050));
}

#[test]
fn button_flash_masks_the_marker_flash() {
    let mut state = connected();
    state.last_marker_color = Some(MarkerColor::Green);
    state.last_marker_color_updated_at = 7_000;
    state.last_button_press_at = 7_100;
    // 150 ms after the marker the marker flash is dark; the button flash is lit
    assert_eq!(pattern(&state, 7_150), LedPattern::ButtonFlash);
    assert!(is_lit(&state, 0, 7_150));
    // the button flash over, the marker flash goes on
    assert_eq!(pattern(&state, 7_260), LedPattern::MarkerFlash);
    assert!(is_lit(&state, 0, 7_260));
}

#[test]
fn connected_led_is_dark_without_recent_events() {
    let state = connected();
    assert_eq!(pattern(&state, 60_000), LedPattern::Off);
    assert!(!is_lit(&state, 0, 60_000));
}

#[test]
fn patterns_survive_the_wrap_of_the_clock() {
    let mut state = connected();
    state.last_button_press_at = u32::MAX - 49;
    assert_eq!(pattern(&state, 50), LedPattern::ButtonFlash);
    assert_eq!(pattern(&state, 100), LedPattern::Off);
    let blinking = disconnected();
    assert!(is_lit(&blinking, u32::MAX - 99, 100));
    assert!(!is_lit(&blinking, u32::MAX - 99, 400));
}

#[test]
fn renderer_starts_with_the_state_at_boot() {
    let renderer = LedRenderer::new_at(33);
    assert_eq!(renderer.current_state, State::new());
    assert_eq!(renderer.slow_blink_start, 33);
    let by_clock = LedRenderer::new();
    assert_eq!(by_clock.current_state, State::new());
}

#[test]
fn renderer_takes_over_a_new_state_and_restarts_the_blink() {
    let mut renderer = LedRenderer::new_at(0);
    assert!(!renderer.poll_at(None, 600));
    assert_eq!(renderer.slow_blink_start, 0);
    let mut shown = disconnected();
    shown.last_marker_color = Some(MarkerColor::Red);
    assert!(renderer.poll_at(Some(shown), 600));
    assert_eq!(renderer.current_state, shown);
    assert_eq!(renderer.slow_blink_start, 600);
    assert!(renderer.poll_at(None, 1_099));
    assert!(!renderer.poll_at(None, 1_100));
    assert_eq!(renderer.slow_blink_start, 600);
    assert_eq!(renderer.current_state, shown);
}

#[test]
fn renderer_shows_the_latest_state_only() {
    let mut renderer = LedRenderer::new_at(0);
    let mut shown = connected();
    shown.last_button_press_at = 1_000;
    assert!(renderer.poll_at(Some(shown), 1_010));
    assert!(!renderer.poll_at(Some(connected()), 1_020));
    assert_eq!(renderer.current_state, connected());
}

#[test]
fn renderer_polls_by_the_clock() {
    let mut renderer = LedRenderer::new();
    let mut shown = connected();
    shown.last_marker_color = Some(MarkerColor::Blue);
    renderer.poll(Some(shown));
    assert_eq!(renderer.current_state, shown);
    renderer.poll(None);
    assert_eq!(renderer.current_state, shown);
}
