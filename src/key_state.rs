use vstd::prelude::*;
use crate::held_keys::{axis, bits_axis, bits_contain, bits_set, keys_of_bits, lemma_no_bits_no_keys, HeldKey};

verus! {

/// The movement and rotation keys held down, as read by the camera each frame.
#[derive(Clone, Copy, Debug)]
pub struct KeyState {
    bits: u16,
}

impl View for KeyState {
    type V = Set<HeldKey>;

    closed spec fn view(&self) -> Set<HeldKey> {
        keys_of_bits(self.bits)
    }
}

impl KeyState {
    /// No key held.
    pub fn new() -> (r: Self)
        ensures
            r@ == Set::<HeldKey>::empty(),
    {
        proof {
            lemma_no_bits_no_keys();
        }
        KeyState { bits: 0 }
    }

    /// Whether `key` is held.
    pub fn contains(&self, key: HeldKey) -> (r: bool)
        ensures
            r == self@.contains(key),
    {
        bits_contain(self.bits, key)
    }

    /// Records that `key` was pressed or released; the other keys keep their state.
    pub fn set(&mut self, key: HeldKey, pressed: bool)
        ensures
            final(self)@ == if pressed {
                old(self)@.insert(key)
            } else {
                old(self)@.remove(key)
            },
    {
        self.bits = bits_set(self.bits, key, pressed);
    }

    fn magnitude(&self, positive: HeldKey, negative: HeldKey) -> (r: i8)
        ensures
            r as int == axis(self@, positive, negative),
    {
        bits_axis(self.bits, positive, negative)
    }

    /// +1 forward, -1 backward, 0 for both or neither.
    pub fn forward_magnitude(&self) -> (r: i8)
        ensures
            r as int == axis(self@, HeldKey::MoveForward, HeldKey::MoveBackward),
    {
        self.magnitude(HeldKey::MoveForward, HeldKey::MoveBackward)
    }

    /// +1 right, -1 left, 0 for both or neither.
    pub fn right_magnitude(&self) -> (r: i8)
        ensures
            r as int == axis(self@, HeldKey::MoveRight, HeldKey::MoveLeft),
    {
        self.magnitude(HeldKey::MoveRight, HeldKey::MoveLeft)
    }

    /// +1 up, -1 down, 0 for both or neither.
    pub fn up_magnitude(&self) -> (r: i8)
        ensures
            r as int == axis(self@, HeldKey::MoveUp, HeldKey::MoveDown),
    {
        self.magnitude(HeldKey::MoveUp, HeldKey::MoveDown)
    }

    /// +1 when pitching down, -1 when pitching up, 0 for both or neither.
    pub fn pitch_magnitude(&self) -> (r: i8)
        ensures
            r as int == axis(self@, HeldKey::PitchDown, HeldKey::PitchUp),
    {
        self.magnitude(HeldKey::PitchDown, HeldKey::PitchUp)
    }

    /// +1 when yawing right, -1 when yawing left, 0 for both or neither.
    pub fn yaw_magnitude(&self) -> (r: i8)
        ensures
            r as int == axis(self@, HeldKey::YawRight, HeldKey::YawLeft),
    {
        self.magnitude(HeldKey::YawRight, HeldKey::YawLeft)
    }
}

impl Default for KeyState {
    fn default() -> (r: Self)
        ensures
            r@ == Set::<HeldKey>::empty(),
    {
        KeyState::new()
    }
}

} // verus!
