use garage_door::state_machine::{DoorPosition, GDState};
use garage_door::GDStateMachine;

fn new_with_state(state: GDState) -> GDStateMachine {
    let mut sm = GDStateMachine::new();
    sm.state = state;

    sm
}

#[test]
fn starts_unknown() {
    let sm = GDStateMachine::new();

    assert_eq!(sm.state, GDState::Unknown);
}

#[test]
fn unknown_to_closed() {
    let mut sm = GDStateMachine::new();
    sm.update(DoorPosition::FullyClosed);

    assert_eq!(sm.state, GDState::Closed);
}

#[test]
fn unknown_to_open() {
    let mut sm = GDStateMachine::new();
    sm.update(DoorPosition::FullyOpen);

    assert_eq!(sm.state, GDState::Open);
}

#[test]
fn unknown_and_moving_is_unknown() {
    let mut sm = GDStateMachine::new();
    sm.update(DoorPosition::Moving);

    assert_eq!(sm.state, GDState::Unknown);
}

#[test]
fn unknown_and_unknown_is_unknown() {
    let mut sm = GDStateMachine::new();
    sm.update(DoorPosition::Unknown);

    assert_eq!(sm.state, GDState::Unknown);
}

#[test]
fn closed_and_closed_is_closed() {
    let mut sm = new_with_state(GDState::Closed);

    sm.update(DoorPosition::FullyClosed);

    assert_eq!(sm.state, GDState::Closed);
}

#[test]
fn closed_and_moving_is_opening() {
    let mut sm = new_with_state(GDState::Closed);

    sm.update(DoorPosition::Moving);

    assert_eq!(sm.state, GDState::Opening);
}

#[test]
fn closed_and_open_is_open() {
    let mut sm = new_with_state(GDState::Closed);

    sm.update(DoorPosition::FullyOpen);

    assert_eq!(sm.state, GDState::Open);
}

#[test]
fn closed_and_unknown_is_unknown() {
    let mut sm = new_with_state(GDState::Closed);

    sm.update(DoorPosition::Unknown);

    assert_eq!(sm.state, GDState::Unknown);
}

#[test]
fn open_and_open_is_open() {
    let mut sm = new_with_state(GDState::Open);

    sm.update(DoorPosition::FullyOpen);

    assert_eq!(sm.state, GDState::Open);
}

#[test]
fn open_and_moving_is_closing() {
    let mut sm = new_with_state(GDState::Open);

    sm.update(DoorPosition::Moving);

    assert_eq!(sm.state, GDState::Closing);
}

#[test]
fn open_and_closed_is_closed() {
    let mut sm = new_with_state(GDState::Open);

    sm.update(DoorPosition::FullyClosed);

    assert_eq!(sm.state, GDState::Closed);
}

#[test]
fn open_and_unknown_is_unknown() {
    let mut sm = new_with_state(GDState::Open);

    sm.update(DoorPosition::Unknown);

    assert_eq!(sm.state, GDState::Unknown);
}

#[test]
fn closing_and_moving_is_closing() {
    let mut sm = new_with_state(GDState::Closing);

    sm.update(DoorPosition::Moving);

    assert_eq!(sm.state, GDState::Closing);
}

#[test]
fn closing_and_closed_is_closed() {
    let mut sm = new_with_state(GDState::Closing);

    sm.update(DoorPosition::FullyClosed);

    assert_eq!(sm.state, GDState::Closed);
}

#[test]
fn closing_and_unknown_is_safety_stopped_while_closing() {
    let mut sm = new_with_state(GDState::Closing);

    sm.update(DoorPosition::Unknown);

    assert_eq!(sm.state, GDState::SafetyStoppedWhileClosing);
}

#[test]
fn closing_and_open_is_safety_stopped_while_closing() {
    let mut sm = new_with_state(GDState::Closing);

    sm.update(DoorPosition::FullyOpen);

    assert_eq!(sm.state, GDState::SafetyStoppedWhileClosing)
}

#[test]
fn opening_and_open_is_open() {
    let mut sm = new_with_state(GDState::Opening);

    sm.update(DoorPosition::FullyOpen);

    assert_eq!(sm.state, GDState::Open);
}

#[test]
fn opening_and_closed_is_safety_stopped_while_opening() {
    let mut sm = new_with_state(GDState::Opening);

    sm.update(DoorPosition::FullyClosed);

    assert_eq!(sm.state, GDState::SafetyStoppedWhileOpening);
}

#[test]
fn opening_and_moving_is_opening() {
    let mut sm = new_with_state(GDState::Opening);

    sm.update(DoorPosition::Moving);

    assert_eq!(sm.state, GDState::Opening);
}

#[test]
fn opening_and_unknown_is_safety_stopped_while_opening() {
    let mut sm = new_with_state(GDState::Opening);

    sm.update(DoorPosition::Unknown);

    assert_eq!(sm.state, GDState::SafetyStoppedWhileOpening);
}

#[test]
fn stopped_closing_and_closed_is_closed() {
    let mut sm = new_with_state(GDState::SafetyStoppedWhileClosing);

    sm.update(DoorPosition::FullyClosed);

    assert_eq!(sm.state, GDState::Closed);
}

#[test]
fn stopped_closing_and_moving_is_opening() {
    let mut sm = new_with_state(GDState::SafetyStoppedWhileClosing);

    sm.update(DoorPosition::Moving);

    assert_eq!(sm.state, GDState::Opening);
}

#[test]
fn stopped_closing_and_unknown_is_stopped_closing() {
    let mut sm = new_with_state(GDState::SafetyStoppedWhileClosing);

    sm.update(DoorPosition::Unknown);

    assert_eq!(sm.state, GDState::SafetyStoppedWhileClosing);
}

#[test]
fn stopped_closing_and_open_is_open() {
    let mut sm = new_with_state(GDState::SafetyStoppedWhileClosing);

    sm.update(DoorPosition::FullyOpen);

    assert_eq!(sm.state, GDState::Open);
}

#[test]
fn stopped_opening_and_closed_is_closed() {
    let mut sm = new_with_state(GDState::SafetyStoppedWhileOpening);

    sm.update(DoorPosition::FullyClosed);

    assert_eq!(sm.state, GDState::Closed);
}

#[test]
fn stopped_opening_and_open_is_open() {
    let mut sm = new_with_state(GDState::SafetyStoppedWhileOpening);

    sm.update(DoorPosition::FullyOpen);

    assert_eq!(sm.state, GDState::Open);
}

#[test]
fn stopped_opening_and_moving_is_closing() {
    let mut sm = new_with_state(GDState::SafetyStoppedWhileOpening);

    sm.update(DoorPosition::Moving);

    assert_eq!(sm.state, GDState::Closing);
}

#[test]
fn stopped_opening_and_unknown_is_stopped_opening() {
    let mut sm = new_with_state(GDState::SafetyStoppedWhileOpening);

    sm.update(DoorPosition::Unknown);

    assert_eq!(sm.state, GDState::SafetyStoppedWhileOpening);
}

#[test]
fn update_reports_change_exactly_when_state_moves() {
    let mut sm = new_with_state(GDState::Closed);

    assert!(!sm.update(DoorPosition::FullyClosed));
    assert!(sm.update(DoorPosition::Moving));
    assert!(!sm.update(DoorPosition::Moving));
    assert!(sm.update(DoorPosition::FullyOpen));
}

#[test]
fn unknown_self_loop_is_not_a_change() {
    let mut sm = GDStateMachine::new();

    assert!(!sm.update(DoorPosition::Unknown));
    assert!(!sm.update(DoorPosition::Moving));
}

#[test]
fn state_names() {
    assert_eq!(GDState::Open.name(), "Open");
    assert_eq!(GDState::Closed.name(), "Closed");
    assert_eq!(GDState::Opening.name(), "Opening");
    assert_eq!(GDState::Closing.name(), "Closing");
    assert_eq!(
        GDState::SafetyStoppedWhileOpening.name(),
        "SafetyStoppedWhileOpening"
    );
    assert_eq!(
        GDState::SafetyStoppedWhileClosing.name(),
        "SafetyStoppedWhileClosing"
    );
    assert_eq!(GDState::Unknown.name(), "Unknown");
}
