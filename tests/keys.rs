use fractal_viewer::cursor::{CursorGrab, GrabChange};
use fractal_viewer::held_keys::{HeldKey, HeldKeys};
use fractal_viewer::input::{
    apply_key_event, held_key_for, route_scroll, trigger_action, KeyInput, ScrollTarget,
    TriggerAction,
};
use fractal_viewer::key_state::KeyState;

#[test]
fn empty_set_has_zero_magnitudes() {
    let keys = HeldKeys::default();
    assert_eq!(keys.forward_magnitude(), 0);
    assert_eq!(keys.right_magnitude(), 0);
    assert_eq!(keys.up_magnitude(), 0);
    assert_eq!(keys.pitch_magnitude(), 0);
    assert_eq!(keys.yaw_magnitude(), 0);
    assert!(!keys.is_shift_pressed());
    assert!(!keys.is_control_pressed());
}

#[test]
fn opposite_keys_cancel() {
    let mut keys = HeldKeys::new();
    keys.set(HeldKey::MoveForward, true);
    assert_eq!(keys.forward_magnitude(), 1);
    keys.set(HeldKey::MoveBackward, true);
    assert_eq!(keys.forward_magnitude(), 0);
    keys.set(HeldKey::MoveForward, false);
    assert_eq!(keys.forward_magnitude(), -1);
}

#[test]
fn each_axis_has_its_sign() {
    let mut keys = HeldKeys::new();
    keys.set(HeldKey::MoveLeft, true);
    keys.set(HeldKey::MoveUp, true);
    keys.set(HeldKey::PitchDown, true);
    keys.set(HeldKey::YawLeft, true);
    assert_eq!(keys.right_magnitude(), -1);
    assert_eq!(keys.up_magnitude(), 1);
    assert_eq!(keys.pitch_magnitude(), 1);
    assert_eq!(keys.yaw_magnitude(), -1);
    keys.set(HeldKey::PitchDown, false);
    keys.set(HeldKey::PitchUp, true);
    assert_eq!(keys.pitch_magnitude(), -1);
    assert_eq!(keys.forward_magnitude(), 0);
}

#[test]
fn modifiers_are_tracked() {
    let mut keys = HeldKeys::new();
    keys.set(HeldKey::Shift, true);
    assert!(keys.is_shift_pressed());
    assert!(!keys.is_control_pressed());
    keys.set(HeldKey::Control, true);
    keys.set(HeldKey::Shift, false);
    assert!(!keys.is_shift_pressed());
    assert!(keys.is_control_pressed());
    assert!(keys.contains(HeldKey::Control));
    assert!(!keys.contains(HeldKey::MoveDown));
}

#[test]
fn key_state_magnitudes() {
    let mut keys = KeyState::default();
    keys.set(HeldKey::MoveRight, true);
    keys.set(HeldKey::MoveDown, true);
    keys.set(HeldKey::YawRight, true);
    assert_eq!(keys.right_magnitude(), 1);
    assert_eq!(keys.up_magnitude(), -1);
    assert_eq!(keys.yaw_magnitude(), 1);
    assert_eq!(keys.forward_magnitude(), 0);
    assert_eq!(keys.pitch_magnitude(), 0);
    keys.set(HeldKey::MoveRight, false);
    assert_eq!(keys.right_magnitude(), 0);
}

#[test]
fn trigger_bindings() {
    assert_eq!(trigger_action(KeyInput::Escape), Some(TriggerAction::ReleaseCursor));
    assert_eq!(trigger_action(KeyInput::Character('+')), Some(TriggerAction::IncreaseIterations));
    assert_eq!(trigger_action(KeyInput::Character('-')), Some(TriggerAction::DecreaseIterations));
    assert_eq!(trigger_action(KeyInput::Character('n')), Some(TriggerAction::NextScene));
    assert_eq!(trigger_action(KeyInput::Character('b')), Some(TriggerAction::PreviousScene));
    assert_eq!(trigger_action(KeyInput::Character('o')), Some(TriggerAction::ResetOrbitSpeed));
    assert_eq!(trigger_action(KeyInput::Character('p')), Some(TriggerAction::TogglePitchLock));
    assert_eq!(trigger_action(KeyInput::Character('l')), Some(TriggerAction::CycleYawLockForward));
    assert_eq!(trigger_action(KeyInput::Character('L')), Some(TriggerAction::CycleYawLockBackward));
    assert_eq!(trigger_action(KeyInput::Character('t')), Some(TriggerAction::StopTime));
    assert_eq!(trigger_action(KeyInput::Character('r')), Some(TriggerAction::ReloadPipeline));
    assert_eq!(trigger_action(KeyInput::Character('>')), Some(TriggerAction::IncreaseResolution));
    assert_eq!(trigger_action(KeyInput::Character('<')), Some(TriggerAction::DecreaseResolution));
    assert_eq!(trigger_action(KeyInput::Character('w')), None);
    assert_eq!(trigger_action(KeyInput::ArrowUp), None);
    assert_eq!(trigger_action(KeyInput::Unbound), None);
}

#[test]
fn held_bindings() {
    assert_eq!(held_key_for(KeyInput::Character('w')), Some(HeldKey::MoveForward));
    assert_eq!(held_key_for(KeyInput::Character('s')), Some(HeldKey::MoveBackward));
    assert_eq!(held_key_for(KeyInput::Character('a')), Some(HeldKey::MoveLeft));
    assert_eq!(held_key_for(KeyInput::Character('d')), Some(HeldKey::MoveRight));
    assert_eq!(held_key_for(KeyInput::Character('q')), Some(HeldKey::MoveDown));
    assert_eq!(held_key_for(KeyInput::Character('e')), Some(HeldKey::MoveUp));
    assert_eq!(held_key_for(KeyInput::ArrowDown), Some(HeldKey::PitchDown));
    assert_eq!(held_key_for(KeyInput::ArrowUp), Some(HeldKey::PitchUp));
    assert_eq!(held_key_for(KeyInput::ArrowRight), Some(HeldKey::YawRight));
    assert_eq!(held_key_for(KeyInput::ArrowLeft), Some(HeldKey::YawLeft));
    assert_eq!(held_key_for(KeyInput::Shift), Some(HeldKey::Shift));
    assert_eq!(held_key_for(KeyInput::Control), Some(HeldKey::Control));
    assert_eq!(held_key_for(KeyInput::Character('W')), None);
    assert_eq!(held_key_for(KeyInput::Escape), None);
}

#[test]
fn key_events_press_and_release_symmetrically() {
    let mut keys = HeldKeys::new();
    apply_key_event(&mut keys, KeyInput::Character('w'), true);
    assert_eq!(keys.forward_magnitude(), 1);
    apply_key_event(&mut keys, KeyInput::Character('x'), true);
    assert_eq!(keys.forward_magnitude(), 1);
    apply_key_event(&mut keys, KeyInput::Character('w'), false);
    assert_eq!(keys.forward_magnitude(), 0);
}

#[test]
fn scroll_routing_by_modifier() {
    let mut keys = HeldKeys::new();
    let plain = route_scroll(&keys);
    assert!(!plain.vertical_to_horizontal);
    assert_eq!(plain.target, ScrollTarget::CameraSpeeds);
    keys.set(HeldKey::Shift, true);
    let shifted = route_scroll(&keys);
    assert!(shifted.vertical_to_horizontal);
    assert_eq!(shifted.target, ScrollTarget::CameraSpeeds);
    keys.set(HeldKey::Shift, false);
    keys.set(HeldKey::Control, true);
    let timed = route_scroll(&keys);
    assert!(!timed.vertical_to_horizontal);
    assert_eq!(timed.target, ScrollTarget::TimeFactor);
}

#[test]
fn cursor_grab_changes_only_on_transitions() {
    let mut cursor = CursorGrab::new();
    assert_eq!(cursor.request(false), None);
    assert_eq!(cursor.request(true), Some(GrabChange::Grab));
    assert!(cursor.grabbed);
    assert_eq!(cursor.request(true), None);
    assert_eq!(cursor.request(false), Some(GrabChange::Release));
    assert!(!cursor.grabbed);
}
