use magic_markers::button::ButtonPoller;
use magic_markers::marker_color::MarkerColor;
use magic_markers::rfid::{command_for_tag, command_for_uid};
use magic_markers::state::StateCommand;
use mfrc522::{GenericUid, Uid};

#[test]
fn button_press_toggles_the_dimmer() {
    let mut poller = ButtonPoller::new();
    assert!(!poller.was_pressed);
    assert_eq!(poller.poll(true), Some(StateCommand::ToggleDimmer));
    assert!(poller.was_pressed);
}

#[test]
fn held_button_counts_as_one_press() {
    let mut poller = ButtonPoller::new();
    assert_eq!(poller.poll(true), Some(StateCommand::ToggleDimmer));
    assert_eq!(poller.poll(true), None);
    assert_eq!(poller.poll(true), None);
    assert!(poller.was_pressed);
}

#[test]
fn released_button_submits_nothing() {
    let mut poller = ButtonPoller::new();
    assert_eq!(poller.poll(false), None);
    assert_eq!(poller.poll(true), Some(StateCommand::ToggleDimmer));
    assert_eq!(poller.poll(false), None);
    assert!(!poller.was_pressed);
    assert_eq!(poller.poll(false), None);
}

#[test]
fn each_press_after_a_release_counts() {
    let mut poller = ButtonPoller::new();
    let levels = [true, false, true, true, false, false, true];
    let presses = levels.iter().filter(|down| poller.poll(**down).is_some()).count();
    assert_eq!(presses, 3);
}

#[test]
fn tag_of_a_marker_submits_its_color() {
    assert_eq!(
        command_for_tag(&[4, 61, 52, 18, 54, 30, 145]),
        Some(StateCommand::SetMarkerColor(MarkerColor::Blue))
    );
    assert_eq!(
        command_for_tag(&MarkerColor::Pink.uid()),
        Some(StateCommand::SetMarkerColor(MarkerColor::Pink))
    );
}

#[test]
fn unknown_tag_submits_nothing() {
    assert_eq!(command_for_tag(&[4, 61, 99, 18, 54, 30, 145]), None);
    assert_eq!(command_for_tag(&[]), None);
}

#[test]
fn double_size_uid_of_a_marker_submits_its_color() {
    let uid = Uid::Double(GenericUid::new([4, 61, 57, 18, 54, 30, 145], 0));
    assert_eq!(
        command_for_uid(&uid),
        Some(StateCommand::SetMarkerColor(MarkerColor::Green))
    );
}

#[test]
fn double_size_uid_of_no_marker_submits_nothing() {
    let uid = Uid::Double(GenericUid::new([4, 61, 57, 18, 54, 30, 146], 0));
    assert_eq!(command_for_uid(&uid), None);
}

#[test]
fn uid_of_another_size_submits_nothing() {
    let single = Uid::Single(GenericUid::new([4, 61, 60, 18], 0));
    assert_eq!(command_for_uid(&single), None);
    let triple = Uid::Triple(GenericUid::new([4, 61, 60, 18, 54, 30, 145, 0, 0, 0], 0));
    assert_eq!(command_for_uid(&triple), None);
}
