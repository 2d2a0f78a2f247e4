use vstd::prelude::*;
use crate::held_keys::{HeldKey, HeldKeys};

verus! {

/// A key as the platform reports it, reduced to what the bindings look at.
#[derive(Clone, Copy, Debug, PartialEq, Eq, Structural)]
pub enum KeyInput {
    /// A key that produces one character.
    Character(char),
    Escape,
    ArrowUp,
    ArrowDown,
    ArrowLeft,
    ArrowRight,
    Shift,
    Control,
    /// Any key without a binding.
    Unbound,
}

/// A one-shot action triggered by a key press.
#[derive(Clone, Copy, Debug, PartialEq, Eq, Structural)]
pub enum TriggerAction {
    ReleaseCursor,
    IncreaseIterations,
    DecreaseIterations,
    NextScene,
    PreviousScene,
    ResetOrbitSpeed,
    TogglePitchLock,
    CycleYawLockForward,
    CycleYawLockBackward,
    StopTime,
    ReloadPipeline,
    IncreaseResolution,
    DecreaseResolution,
}

/// The binding table for one-shot actions.
pub open spec fn trigger_binding(key: KeyInput) -> Option<TriggerAction> {
    match key {
        KeyInput::Escape => Some(TriggerAction::ReleaseCursor),
        KeyInput::Character('+') => Some(TriggerAction::IncreaseIterations),
        KeyInput::Character('-') => Some(TriggerAction::DecreaseIterations),
        KeyInput::Character('n') => Some(TriggerAction::NextScene),
        KeyInput::Character('b') => Some(TriggerAction::PreviousScene),
        KeyInput::Character('o') => Some(TriggerAction::ResetOrbitSpeed),
        KeyInput::Character('p') => Some(TriggerAction::TogglePitchLock),
        KeyInput::Character('l') => Some(TriggerAction::CycleYawLockForward),
        KeyInput::Character('L') => Some(TriggerAction::CycleYawLockBackward),
        KeyInput::Character('t') => Some(TriggerAction::StopTime),
        KeyInput::Character('r') => Some(TriggerAction::ReloadPipeline),
        KeyInput::Character('>') => Some(TriggerAction::IncreaseResolution),
        KeyInput::Character('<') => Some(TriggerAction::DecreaseResolution),
        _ => None,
    }
}

/// The binding table for held keys.
pub open spec fn held_binding(key: KeyInput) -> Option<HeldKey> {
    match key {
        KeyInput::Character('w') => Some(HeldKey::MoveForward),
        KeyInput::Character('s') => Some(HeldKey::MoveBackward),
        KeyInput::Character('a') => Some(HeldKey::MoveLeft),
        KeyInput::Character('d') => Some(HeldKey::MoveRight),
        KeyInput::Character('q') => Some(HeldKey::MoveDown),
        KeyInput::Character('e') => Some(HeldKey::MoveUp),
        KeyInput::ArrowDown => Some(HeldKey::PitchDown),
        KeyInput::ArrowUp => Some(HeldKey::PitchUp),
        KeyInput::ArrowRight => Some(HeldKey::YawRight),
        KeyInput::ArrowLeft => Some(HeldKey::YawLeft),
        KeyInput::Shift => Some(HeldKey::Shift),
        KeyInput::Control => Some(HeldKey::Control),
        _ => None,
    }
}

/// The one-shot action bound to `key`, if any.
pub fn trigger_action(key: KeyInput) -> (r: Option<TriggerAction>)
    ensures
        r == trigger_binding(key),
{
    match key {
        KeyInput::Escape => Some(TriggerAction::ReleaseCursor),
        KeyInput::Character(c) => {
            if c == '+' {
                Some(TriggerAction::IncreaseIterations)
            } else if c == '-' {
                Some(TriggerAction::DecreaseIterations)
            } else if c == 'n' {
                Some(TriggerAction::NextScene)
            } else if c == 'b' {
                Some(TriggerAction::PreviousScene)
            } else if c == 'o' {
                Some(TriggerAction::ResetOrbitSpeed)
            } else if c == 'p' {
                Some(TriggerAction::TogglePitchLock)
            } else if c == 'l' {
                Some(TriggerAction::CycleYawLockForward)
            } else if c == 'L' {
                Some(TriggerAction::CycleYawLockBackward)
            } else if c == 't' {
                Some(TriggerAction::StopTime)
            } else if c == 'r' {
                Some(TriggerAction::ReloadPipeline)
            } else if c == '>' {
                Some(TriggerAction::IncreaseResolution)
            } else if c == '<' {
                Some(TriggerAction::DecreaseResolution)
            } else {
                None
            }
        },
        _ => None,
    }
}

/// The held key that `key` stands for, if any.
pub fn held_key_for(key: KeyInput) -> (r: Option<HeldKey>)
    ensures
        r == held_binding(key),
{
    match key {
        KeyInput::Character(c) => {
            if c == 'w' {
                Some(HeldKey::MoveForward)
            } else if c == 's' {
                Some(HeldKey::MoveBackward)
            } else if c == 'a' {
                Some(HeldKey::MoveLeft)
            } else if c == 'd' {
                Some(HeldKey::MoveRight)
            } else if c == 'q' {
                Some(HeldKey::MoveDown)
            } else if c == 'e' {
                Some(HeldKey::MoveUp)
            } else {
                None
            }
        },
        KeyInput::ArrowDown => Some(HeldKey::PitchDown),
        KeyInput::ArrowUp => Some(HeldKey::PitchUp),
        KeyInput::ArrowRight => Some(HeldKey::YawRight),
        KeyInput::ArrowLeft => Some(HeldKey::YawLeft),
        KeyInput::Shift => Some(HeldKey::Shift),
        KeyInput::Control => Some(HeldKey::Control),
        _ => None,
    }
}

/// The held-key set after a press or release of `key`: a bound key changes
/// state, the others leave the set as it was.
pub open spec fn after_key_event(keys: Set<HeldKey>, key: KeyInput, pressed: bool) -> Set<
    HeldKey,
> {
    match held_binding(key) {
        Some(k) => if pressed {
            keys.insert(k)
        } else {
            keys.remove(k)
        },
        None => keys,
    }
}

/// Applies a press or release of `key` to the held-key set.
pub fn apply_key_event(keys: &mut HeldKeys, key: KeyInput, pressed: bool)
    ensures
        final(keys)@ == after_key_event(old(keys)@, key, pressed),
{
    if let Some(k) = held_key_for(key) {
        keys.set(k, pressed);
    }
}

/// What a scroll event adjusts.
#[derive(Clone, Copy, Debug, PartialEq, Eq, Structural)]
pub enum ScrollTarget {
    /// Vertical scroll scales the movement speed, horizontal the orbit speed.
    CameraSpeeds,
    /// Vertical scroll adjusts the time dilation factor.
    TimeFactor,
}

/// How one scroll event is to be read, given the held modifiers.
#[derive(Clone, Copy, Debug, PartialEq, Eq, Structural)]
pub struct ScrollRoute {
    /// Add the vertical amount to the horizontal one and drop the vertical one.
    pub vertical_to_horizontal: bool,
    pub target: ScrollTarget,
}

/// Shift turns vertical scrolling into horizontal; Control sends scrolling to
/// the time factor instead of the camera.
pub fn route_scroll(keys: &HeldKeys) -> (r: ScrollRoute)
    ensures
        r.vertical_to_horizontal == keys@.contains(HeldKey::Shift),
        r.target == if keys@.contains(HeldKey::Control) {
            ScrollTarget::TimeFactor
        } else {
            ScrollTarget::CameraSpeeds
        },
{
    let target = if keys.is_control_pressed() {
        ScrollTarget::TimeFactor
    } else {
        ScrollTarget::CameraSpeeds
    };
    ScrollRoute { vertical_to_horizontal: keys.is_shift_pressed(), target }
}

} // verus!
